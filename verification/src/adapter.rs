//! The adapters that the graphics API can drive through a native context.

use crate::context::{ContextState, NativeContext};
use crate::error::Error;
use vstd::prelude::*;

verus! {

/// The one family of queues that an adapter has. It can do everything,
/// presenting included.
#[derive(Clone, Copy, Debug, PartialEq, Eq, Hash, Structural)]
pub struct QueueFamily;

/// The device behind an adapter, reached through the symbol resolver of the
/// context that the adapter came from.
#[derive(Clone, Copy, Debug, PartialEq, Eq, Hash, Structural)]
pub struct PhysicalDevice {
    /// The address of the primary entry point of that resolver. Lookups of
    /// driver entry points go through it.
    pub proc_entry: usize,
}

/// A physical adapter as the graphics API sees it.
#[derive(Clone, Copy, Debug, PartialEq, Eq, Hash, Structural)]
pub struct Adapter {
    /// The place of the adapter among those of its context.
    pub id: usize,
    /// The device behind the adapter.
    pub physical_device: PhysicalDevice,
    /// The family of queues of that device.
    pub queue_family: QueueFamily,
}

/// The adapters of a native context, or why there are none to be had.
///
/// A native context shows one logical device, so a context that is current
/// and resolves its primary entry point has exactly one adapter, which
/// resolves through that entry point. A context that does not resolve it
/// has no adapter worth the name and the enumeration fails. Enumerating
/// issues commands, so it is refused unless the context is current.
pub open spec fn adapters_of(context: NativeContext) -> Result<Seq<Adapter>, Error> {
    match context.state {
        ContextState::Lost => Err(Error::ContextLost),
        ContextState::NotCurrent => Err(Error::CurrencyViolation),
        ContextState::Current => if context.proc_entry == 0 {
            Err(Error::SymbolResolutionFailed)
        } else {
            Ok(
                seq![
                    Adapter {
                        id: 0,
                        physical_device: PhysicalDevice { proc_entry: context.proc_entry },
                        queue_family: QueueFamily,
                    },
                ],
            )
        },
    }
}

/// Whether an enumeration came out as `adapters_of` says it must.
pub open spec fn enumerated(context: NativeContext, outcome: Result<Vec<Adapter>, Error>) -> bool {
    match outcome {
        Ok(adapters) => adapters_of(context) matches Ok(listed) && adapters@ == listed,
        Err(e) => adapters_of(context) matches Err(refused) && e == refused,
    }
}

/// The adapters of a native context.
pub fn enumerate(context: &NativeContext) -> (outcome: Result<Vec<Adapter>, Error>)
    ensures
        enumerated(*context, outcome),
{
    match context.require_current() {
        Err(e) => Err(e),
        Ok(()) => {
            if context.proc_entry == 0 {
                Err(Error::SymbolResolutionFailed)
            } else {
                let adapter = Adapter {
                    id: 0,
                    physical_device: PhysicalDevice { proc_entry: context.proc_entry },
                    queue_family: QueueFamily,
                };
                let adapters = vec![adapter];
                assert(adapters@ =~= seq![adapter]);
                Ok(adapters)
            }
        },
    }
}

/// Anything that adapters can be enumerated from: a surface, a context
/// without a window.
pub trait Instance {
    /// The native context that the adapters are reached through.
    spec fn graphics_context(&self) -> NativeContext;

    /// The adapters that the graphics API can drive through the context.
    fn enumerate_adapters(&self) -> (outcome: Result<Vec<Adapter>, Error>)
        ensures
            enumerated(self.graphics_context(), outcome),
    ;
}

/// An enumeration gives one adapter or fails: it never gives an empty list,
/// and never an adapter that cannot resolve symbols. It gives the adapter
/// exactly when the context is current and resolves its primary entry
/// point. It fails for want of that entry point exactly when the context is
/// current and does not resolve it, with a violation of currency exactly
/// when the context is live and not current, and with the loss exactly when
/// the context is lost.
pub proof fn lemma_one_adapter_or_none(context: NativeContext)
    ensures
        adapters_of(context) matches Ok(adapters) ==> {
            &&& adapters.len() == 1
            &&& adapters[0].physical_device.proc_entry == context.proc_entry
            &&& adapters[0].physical_device.proc_entry != 0
        },
        adapters_of(context) is Ok <==> context.state == ContextState::Current
            && context.proc_entry != 0,
        adapters_of(context) matches Err(e) ==> {
            &&& e == Error::SymbolResolutionFailed <==> context.state == ContextState::Current
            &&& e == Error::CurrencyViolation <==> context.state == ContextState::NotCurrent
            &&& e == Error::ContextLost <==> context.state == ContextState::Lost
        },
{
}

} // verus!
