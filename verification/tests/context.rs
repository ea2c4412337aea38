use gl_surface::context::{
    ContextState, GraphicsContext, NativeContext, PixelFormat, SharedContext, Window,
    WindowedContext,
};
use gl_surface::error::Error;

fn native(state: ContextState) -> NativeContext {
    NativeContext { state, proc_entry: 0x4000 }
}

fn windowed(state: ContextState) -> WindowedContext {
    WindowedContext {
        context: native(state),
        pixel_format: PixelFormat {
            color_bits: 24,
            alpha_bits: 8,
            depth_bits: 16,
            stencil_bits: 0,
            multisampling: Some(4),
            double_buffer: false,
            srgb: false,
        },
        window: Window::new(320, 200).unwrap(),
    }
}

#[test]
fn live_contexts_can_be_read() {
    assert_eq!(native(ContextState::Current).require_live(), Ok(()));
    assert_eq!(native(ContextState::NotCurrent).require_live(), Ok(()));
}

#[test]
fn lost_context_cannot_be_read() {
    assert_eq!(native(ContextState::Lost).require_live(), Err(Error::ContextLost));
}

#[test]
fn commands_need_a_current_context() {
    assert_eq!(native(ContextState::Current).require_current(), Ok(()));
    assert_eq!(native(ContextState::NotCurrent).require_current(), Err(Error::CurrencyViolation));
    assert_eq!(native(ContextState::Lost).require_current(), Err(Error::ContextLost));
}

#[test]
fn handle_stands_for_the_context_it_took() {
    let context = native(ContextState::Current);
    let handle = SharedContext::new(context);
    assert_eq!(*handle.get(), context);
}

#[test]
fn cloned_handles_see_the_same_context() {
    let context = native(ContextState::NotCurrent);
    let first = SharedContext::new(context);
    let second = first.clone();
    let third = second.clone();
    assert_eq!(*first.get(), context);
    assert_eq!(*second.get(), context);
    assert!(std::ptr::eq(first.get(), third.get()));
}

#[test]
fn context_outlives_the_handle_it_came_with() {
    let context = native(ContextState::Current);
    let first = SharedContext::new(context);
    let second = first.clone();
    drop(first);
    assert_eq!(*second.get(), context);
}

#[test]
fn handle_reads_a_live_context() {
    for state in [ContextState::Current, ContextState::NotCurrent] {
        let handle = SharedContext::new(native(state));
        assert_eq!(handle.read().map(|context| *context), Ok(native(state)));
    }
}

#[test]
fn handle_refuses_to_read_a_lost_context() {
    let handle = SharedContext::new(native(ContextState::Lost));
    assert_eq!(handle.read().map(|context| *context), Err(Error::ContextLost));
    assert_eq!(handle.clone().read().map(|context| *context), Err(Error::ContextLost));
    assert_eq!(handle.get().state, ContextState::Lost);
}

#[test]
fn windowed_context_is_read_through_its_native_context() {
    let live = windowed(ContextState::NotCurrent);
    assert_eq!(*live.native_context(), native(ContextState::NotCurrent));
    assert_eq!(SharedContext::new(live).read().map(|context| *context), Ok(live));
    let lost = windowed(ContextState::Lost);
    assert_eq!(SharedContext::new(lost).read().map(|context| *context), Err(Error::ContextLost));
}
