use gl_surface::adapter::{PhysicalDevice, QueueFamily};
use gl_surface::context::{
    ContextState, NativeContext, PhysicalSize, PixelFormat, Window, WindowedContext,
};
use gl_surface::error::Error;
use gl_surface::format::Format;
use gl_surface::get_window_extent;
use gl_surface::image::{Extent, ImageUse, Kind, Usage};
use gl_surface::window::{CompositeAlpha, Extent2D, PresentMode, SurfaceCapabilities};
use gl_surface::Surface;

fn pixel_format(double_buffer: bool) -> PixelFormat {
    PixelFormat {
        color_bits: 24,
        alpha_bits: 8,
        depth_bits: 24,
        stencil_bits: 8,
        multisampling: None,
        double_buffer,
        srgb: true,
    }
}

fn context(state: ContextState, pixel_format: PixelFormat, width: u32, height: u32) -> WindowedContext {
    WindowedContext {
        context: NativeContext { state, proc_entry: 0x7f00_1000 },
        pixel_format,
        window: Window::new(width, height).unwrap(),
    }
}

fn surface(double_buffer: bool, width: u32, height: u32) -> Surface {
    Surface::from_window(context(ContextState::Current, pixel_format(double_buffer), width, height))
}

fn device() -> PhysicalDevice {
    PhysicalDevice { proc_entry: 0x7f00_1000 }
}

fn envelope(surface: &Surface) -> SurfaceCapabilities {
    surface.compatibility(&device()).unwrap().0
}

#[test]
fn window_extent_is_the_physical_size_one_deep() {
    let window = Window::new(800, 600).unwrap();
    assert_eq!(get_window_extent(&window), Extent { width: 800, height: 600, depth: 1 });
    let window = Window::new(0, 0).unwrap();
    assert_eq!(get_window_extent(&window), Extent { width: 0, height: 0, depth: 1 });
}

#[test]
fn window_reports_its_size() {
    let window = Window::new(1920, 1080).unwrap();
    assert_eq!(window.inner_size(), PhysicalSize { width: 1920, height: 1080 });
}

#[test]
fn window_of_uncountable_size_is_refused() {
    assert!(Window::new(u32::MAX, 600).is_none());
    assert!(Window::new(800, u32::MAX).is_none());
    assert!(Window::new(u32::MAX, u32::MAX).is_none());
    assert!(Window::new(u32::MAX - 1, u32::MAX - 1).is_some());
}

#[test]
fn extent_drops_its_depth() {
    let flat = Extent2D::from(Extent { width: 640, height: 480, depth: 1 });
    assert_eq!(flat, Extent2D { width: 640, height: 480 });
    let flat = Extent2D::from(Extent { width: 3, height: 5, depth: 7 });
    assert_eq!(flat, Extent2D { width: 3, height: 5 });
}

#[test]
fn double_buffered_context_takes_exactly_two_images() {
    for (width, height) in [(0, 0), (1, 1), (800, 600), (3840, 2160), (u32::MAX - 1, 7)] {
        assert_eq!(envelope(&surface(true, width, height)).image_count, 2..3);
    }
}

#[test]
fn single_buffered_context_takes_exactly_one_image() {
    for (width, height) in [(0, 0), (1, 1), (800, 600), (3840, 2160), (u32::MAX - 1, 7)] {
        assert_eq!(envelope(&surface(false, width, height)).image_count, 1..2);
    }
}

#[test]
fn extent_range_is_the_window_and_one_pixel_more() {
    let caps = envelope(&surface(true, 800, 600));
    assert_eq!(caps.current_extent, Some(Extent2D { width: 800, height: 600 }));
    assert_eq!(
        caps.extents,
        Extent2D { width: 800, height: 600 }..Extent2D { width: 801, height: 601 }
    );
}

#[test]
fn extent_range_of_an_empty_window() {
    let caps = envelope(&surface(false, 0, 0));
    assert_eq!(caps.current_extent, Some(Extent2D { width: 0, height: 0 }));
    assert_eq!(caps.extents, Extent2D { width: 0, height: 0 }..Extent2D { width: 1, height: 1 });
}

#[test]
fn extent_range_of_the_largest_window() {
    let caps = envelope(&surface(true, u32::MAX - 1, u32::MAX - 1));
    assert_eq!(caps.extents.start, Extent2D { width: u32::MAX - 1, height: u32::MAX - 1 });
    assert_eq!(caps.extents.end, Extent2D { width: u32::MAX, height: u32::MAX });
}

#[test]
fn extent_range_starts_at_the_current_extent_for_many_sizes() {
    for (width, height) in [(1, 1), (7, 9000), (1024, 768), (65535, 65536), (4096, 1)] {
        let caps = envelope(&surface(true, width, height));
        assert_eq!(Some(caps.extents.start), caps.current_extent);
        assert_eq!(caps.extents.end, Extent2D { width: width + 1, height: height + 1 });
    }
}

#[test]
fn envelope_has_one_layer_two_uses_and_is_opaque() {
    let caps = envelope(&surface(true, 800, 600));
    assert_eq!(caps.max_image_layers, 1);
    assert_eq!(caps.composite_alpha, CompositeAlpha::Opaque);
    assert_eq!(caps.usage.bits, 0x11);
    assert!(caps.usage.contains(ImageUse::ColorAttachment));
    assert!(caps.usage.contains(ImageUse::TransferSrc));
    for other in [
        ImageUse::TransferDst,
        ImageUse::Sampled,
        ImageUse::Storage,
        ImageUse::DepthStencilAttachment,
        ImageUse::TransientAttachment,
        ImageUse::InputAttachment,
    ] {
        assert!(!caps.usage.contains(other));
    }
}

#[test]
fn whole_envelope_of_a_double_buffered_window() {
    let caps = envelope(&surface(true, 1280, 720));
    assert_eq!(
        caps,
        SurfaceCapabilities {
            image_count: 2..3,
            current_extent: Some(Extent2D { width: 1280, height: 720 }),
            extents: Extent2D { width: 1280, height: 720 }..Extent2D { width: 1281, height: 721 },
            max_image_layers: 1,
            usage: Usage { bits: 0x11 },
            composite_alpha: CompositeAlpha::Opaque,
        }
    );
}

#[test]
fn present_modes_are_fifo_alone() {
    let (_, _, modes) = surface(true, 800, 600).compatibility(&device()).unwrap();
    assert_eq!(modes, vec![PresentMode::Fifo]);
    let (_, _, modes) = surface(false, 1, 1).compatibility(&device()).unwrap();
    assert_eq!(modes, vec![PresentMode::Fifo]);
}

#[test]
fn compatibility_lists_the_presentable_formats() {
    let (_, formats, _) = surface(true, 800, 600).compatibility(&device()).unwrap();
    assert_eq!(formats, Some(vec![Format::Rgba8Srgb, Format::Bgra8Srgb]));
    let linear = PixelFormat { srgb: false, ..pixel_format(true) };
    let surface = Surface::from_window(context(ContextState::Current, linear, 800, 600));
    let (_, formats, _) = surface.compatibility(&device()).unwrap();
    assert_eq!(formats, Some(vec![Format::Rgba8Unorm, Format::Bgra8Unorm]));
}

#[test]
fn unsupported_pixel_format_gives_an_empty_list_and_a_full_envelope() {
    let odd = PixelFormat { color_bits: 16, alpha_bits: 0, ..pixel_format(true) };
    let surface = Surface::from_window(context(ContextState::Current, odd, 800, 600));
    assert_eq!(surface.swapchain_formats(), Ok(vec![]));
    let (caps, formats, modes) = surface.compatibility(&device()).unwrap();
    assert_eq!(formats, Some(vec![]));
    assert_eq!(caps.image_count, 2..3);
    assert_eq!(caps.current_extent, Some(Extent2D { width: 800, height: 600 }));
    assert_eq!(modes, vec![PresentMode::Fifo]);
}

#[test]
fn swapchain_formats_follow_the_pixel_format() {
    assert_eq!(
        surface(true, 800, 600).swapchain_formats(),
        Ok(vec![Format::Rgba8Srgb, Format::Bgra8Srgb])
    );
    let linear = PixelFormat { srgb: false, ..pixel_format(false) };
    let surface = Surface::from_window(context(ContextState::Current, linear, 1, 1));
    assert_eq!(surface.swapchain_formats(), Ok(vec![Format::Rgba8Unorm, Format::Bgra8Unorm]));
}

#[test]
fn second_query_reports_the_second_extent() {
    let before = context(ContextState::Current, pixel_format(true), 800, 600);
    let first = envelope(&Surface::from_window(before));
    let after = WindowedContext { window: Window::new(1024, 768).unwrap(), ..before };
    let second = envelope(&Surface::from_window(after));
    assert_eq!(first.current_extent, Some(Extent2D { width: 800, height: 600 }));
    assert_eq!(second.current_extent, Some(Extent2D { width: 1024, height: 768 }));
    assert_eq!(
        second.extents,
        Extent2D { width: 1024, height: 768 }..Extent2D { width: 1025, height: 769 }
    );
    assert_ne!(second.current_extent, first.current_extent);
    assert_eq!(second.image_count, first.image_count);
}

#[test]
fn repeated_query_on_one_surface_gives_the_same_envelope() {
    let surface = surface(true, 800, 600);
    assert_eq!(envelope(&surface), envelope(&surface));
}

#[test]
fn queries_do_not_need_a_current_context() {
    let surface =
        Surface::from_window(context(ContextState::NotCurrent, pixel_format(true), 800, 600));
    assert_eq!(envelope(&surface).image_count, 2..3);
    assert_eq!(surface.swapchain_formats(), Ok(vec![Format::Rgba8Srgb, Format::Bgra8Srgb]));
    assert_eq!(surface.kind(), Ok(Kind::D2(800, 600, 1, 1)));
}

#[test]
fn lost_context_fails_every_query() {
    let surface = Surface::from_window(context(ContextState::Lost, pixel_format(true), 800, 600));
    assert_eq!(surface.compatibility(&device()), Err(Error::ContextLost));
    assert_eq!(surface.swapchain_formats(), Err(Error::ContextLost));
    assert_eq!(surface.kind(), Err(Error::ContextLost));
}

#[test]
fn kind_is_two_dimensional_with_one_layer() {
    assert_eq!(surface(true, 800, 600).kind(), Ok(Kind::D2(800, 600, 1, 1)));
    assert_eq!(surface(false, 0, 0).kind(), Ok(Kind::D2(0, 0, 1, 1)));
}

#[test]
fn kind_takes_the_samples_of_the_pixel_format() {
    for (multisampling, samples) in
        [(None, 1), (Some(0), 0), (Some(4), 4), (Some(16), 16), (Some(255), 255)]
    {
        let pf = PixelFormat { multisampling, ..pixel_format(true) };
        let surface = Surface::from_window(context(ContextState::Current, pf, 640, 480));
        assert_eq!(surface.kind(), Ok(Kind::D2(640, 480, 1, samples)));
    }
}

#[test]
fn kind_keeps_the_low_eight_bits_of_the_sample_count() {
    for (multisampling, samples) in [(256, 0), (257, 1), (1024 + 8, 8), (u16::MAX, 255)] {
        let pf = PixelFormat { multisampling: Some(multisampling), ..pixel_format(true) };
        let surface = Surface::from_window(context(ContextState::Current, pf, 640, 480));
        assert_eq!(surface.kind(), Ok(Kind::D2(640, 480, 1, samples)));
    }
}

#[test]
fn every_queue_family_can_present() {
    assert!(surface(true, 800, 600).supports_queue_family(&QueueFamily));
    let lost = Surface::from_window(context(ContextState::Lost, pixel_format(false), 1, 1));
    assert!(lost.supports_queue_family(&QueueFamily));
}

#[test]
fn surface_hands_out_the_context_it_was_made_from() {
    let context = context(ContextState::Current, pixel_format(true), 800, 600);
    let surface = Surface::from_window(context);
    assert_eq!(*surface.get_context(), context);
    assert_eq!(*surface.context(), context);
    assert_eq!(surface.get_context().window.inner_size(), PhysicalSize { width: 800, height: 600 });
}

#[test]
fn usage_sets_add_up() {
    let one = Usage::only(ImageUse::Sampled);
    assert_eq!(one.bits, 0x4);
    assert!(one.contains(ImageUse::Sampled));
    assert!(!one.contains(ImageUse::Storage));
    let both = one.union(Usage::only(ImageUse::InputAttachment));
    assert_eq!(both.bits, 0x84);
    assert!(both.contains(ImageUse::Sampled));
    assert!(both.contains(ImageUse::InputAttachment));
    assert!(!both.contains(ImageUse::TransferSrc));
    assert_eq!(both.union(one), both);
}

#[test]
fn every_use_has_its_own_bit() {
    let uses = [
        (ImageUse::TransferSrc, 0x1),
        (ImageUse::TransferDst, 0x2),
        (ImageUse::Sampled, 0x4),
        (ImageUse::Storage, 0x8),
        (ImageUse::ColorAttachment, 0x10),
        (ImageUse::DepthStencilAttachment, 0x20),
        (ImageUse::TransientAttachment, 0x40),
        (ImageUse::InputAttachment, 0x80),
    ];
    for (image_use, bit) in uses {
        assert_eq!(image_use.bit(), bit);
        assert_eq!(Usage::only(image_use).bits, bit);
    }
}
