//! `zwp_linux_dmabuf_v1`: the global that announces the DMA-buffer formats
//! the compositor takes.
use vstd::prelude::*;

verus! {

/// The fourcc code of the 32-bit ARGB format (`AR24`).
pub const FOURCC_ARGB8888: u32 = 0x3432_5241;
/// The fourcc code of the 32-bit XRGB format (`XR24`).
pub const FOURCC_XRGB8888: u32 = 0x3432_5258;
/// The high half of the modifier announced for both formats.
pub const ANNOUNCED_MODIFIER_HI: u32 = 0x00ff_ffff;
/// The low half of the modifier announced for both formats.
pub const ANNOUNCED_MODIFIER_LO: u32 = 0xffff_ffff;
/// The protocol version from which a client can ask for default feedback; a
/// client binding an older version is not served.
pub const DEFAULT_FEEDBACK_SINCE: u32 = 4;

/// An event sent to a client that binds the global.
#[derive(Clone, Copy, PartialEq, Eq, Debug, Structural)]
pub enum DmabufFactoryEvent {
    Format(u32),
    Modifier { format: u32, modifier_hi: u32, modifier_lo: u32 },
}

/// What a client binding the global is told.
pub open spec fn spec_factory_bind_events() -> Seq<DmabufFactoryEvent> {
    seq![
        DmabufFactoryEvent::Format(FOURCC_ARGB8888),
        DmabufFactoryEvent::Format(FOURCC_XRGB8888),
        DmabufFactoryEvent::Modifier {
            format: FOURCC_ARGB8888,
            modifier_hi: ANNOUNCED_MODIFIER_HI,
            modifier_lo: ANNOUNCED_MODIFIER_LO,
        },
        DmabufFactoryEvent::Modifier {
            format: FOURCC_XRGB8888,
            modifier_hi: ANNOUNCED_MODIFIER_HI,
            modifier_lo: ANNOUNCED_MODIFIER_LO,
        },
    ]
}

/// The events to send, in order, to a client that binds the global. They go
/// out whatever version the client bound; a client older than
/// `DEFAULT_FEEDBACK_SINCE` is told them and then not served further.
pub fn factory_bind_events() -> (r: Vec<DmabufFactoryEvent>)
    ensures
        r@ == spec_factory_bind_events(),
{
    let mut events = Vec::new();
    events.push(DmabufFactoryEvent::Format(FOURCC_ARGB8888));
    events.push(DmabufFactoryEvent::Format(FOURCC_XRGB8888));
    events.push(
        DmabufFactoryEvent::Modifier {
            format: FOURCC_ARGB8888,
            modifier_hi: ANNOUNCED_MODIFIER_HI,
            modifier_lo: ANNOUNCED_MODIFIER_LO,
        },
    );
    events.push(
        DmabufFactoryEvent::Modifier {
            format: FOURCC_XRGB8888,
            modifier_hi: ANNOUNCED_MODIFIER_HI,
            modifier_lo: ANNOUNCED_MODIFIER_LO,
        },
    );
    assert(events@ =~= spec_factory_bind_events());
    events
}

/// The plugin for the DMA-buffer global.
pub struct DWayDmaBufferFactoryPlugin;

} // verus!
