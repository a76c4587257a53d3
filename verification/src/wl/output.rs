//! `wl_output`: the one output the compositor announces, and which outputs a
//! surface is on.
use vstd::prelude::*;
use crate::util::rect::{irect, IRect};
use wayland_backend::server::GlobalId;

verus! {

/// The width of the output, in pixels.
pub const OUTPUT_WIDTH: i32 = 1920;
/// The height of the output, in pixels.
pub const OUTPUT_HEIGHT: i32 = 1080;
/// The refresh rate of the output, in millihertz.
pub const OUTPUT_REFRESH: i32 = 60000;

/// The protocol version from which an output announces its name and
/// description.
pub const OUTPUT_NAME_SINCE: u32 = 4;
/// The protocol version from which an output announces its scale and ends
/// with `done`.
pub const OUTPUT_DONE_SINCE: u32 = 2;

/// The handle of the `wl_output` global.
pub struct OutputDelegate(pub GlobalId);

/// The plugin for outputs.
pub struct WlOutputPlugin;

/// The geometry of the output, as a rectangle at the origin.
pub fn output_rect() -> (r: IRect)
    ensures
        r == irect(0, 0, OUTPUT_WIDTH as int, OUTPUT_HEIGHT as int),
{
    IRect::new(0, 0, OUTPUT_WIDTH, OUTPUT_HEIGHT)
}

/// An event the compositor sends when a client binds the output.
#[derive(Clone, Copy, PartialEq, Eq, Debug, Structural)]
pub enum OutputEvent {
    /// `geometry` at the origin, with the given physical size in millimetres,
    /// vertical RGB subpixels, make and model `dway`, and no transform.
    Geometry { physical_width: i32, physical_height: i32 },
    /// The current mode.
    Mode { width: i32, height: i32, refresh: i32 },
    /// The name `WL-1`.
    Name,
    /// The description `dway output`.
    Description,
    Scale(i32),
    Done,
}

/// What an output of protocol version `version` is told when bound.
pub open spec fn spec_output_bind_events(version: u32) -> Seq<OutputEvent> {
    let head = seq![
        OutputEvent::Geometry { physical_width: OUTPUT_WIDTH, physical_height: OUTPUT_HEIGHT },
        OutputEvent::Mode { width: OUTPUT_WIDTH, height: OUTPUT_HEIGHT, refresh: OUTPUT_REFRESH },
    ];
    let named = if version >= OUTPUT_NAME_SINCE {
        head + seq![OutputEvent::Name, OutputEvent::Description]
    } else {
        head
    };
    if version >= OUTPUT_DONE_SINCE {
        named + seq![OutputEvent::Scale(1), OutputEvent::Done]
    } else {
        named
    }
}

/// The events to send to an output just bound, in order.
pub fn output_bind_events(version: u32) -> (r: Vec<OutputEvent>)
    ensures
        r@ == spec_output_bind_events(version),
{
    let mut events = Vec::new();
    events.push(OutputEvent::Geometry { physical_width: OUTPUT_WIDTH, physical_height: OUTPUT_HEIGHT });
    events.push(OutputEvent::Mode { width: OUTPUT_WIDTH, height: OUTPUT_HEIGHT, refresh: OUTPUT_REFRESH });
    if version >= OUTPUT_NAME_SINCE {
        events.push(OutputEvent::Name);
        events.push(OutputEvent::Description);
    }
    if version >= OUTPUT_DONE_SINCE {
        events.push(OutputEvent::Scale(1));
        events.push(OutputEvent::Done);
    }
    proof {
        let head = seq![
            OutputEvent::Geometry { physical_width: OUTPUT_WIDTH, physical_height: OUTPUT_HEIGHT },
            OutputEvent::Mode { width: OUTPUT_WIDTH, height: OUTPUT_HEIGHT, refresh: OUTPUT_REFRESH },
        ];
        assert(head + seq![OutputEvent::Name, OutputEvent::Description] =~= head.push(
            OutputEvent::Name,
        ).push(OutputEvent::Description));
        assert(head + seq![OutputEvent::Scale(1), OutputEvent::Done] =~= head.push(
            OutputEvent::Scale(1),
        ).push(OutputEvent::Done));
        let named = head + seq![OutputEvent::Name, OutputEvent::Description];
        assert(named + seq![OutputEvent::Scale(1), OutputEvent::Done] =~= named.push(
            OutputEvent::Scale(1),
        ).push(OutputEvent::Done));
    }
    events
}

/// Which of the two passes over surface/output pairs a decision is made in:
/// pairs where the surface's client has bound the output, and pairs where the
/// surface is already on the output.
#[derive(Clone, Copy, PartialEq, Eq, Debug, Structural)]
pub enum OutputPass {
    NewConnection,
    OldConnection,
}

/// What to tell a surface about an output.
#[derive(Clone, Copy, PartialEq, Eq, Debug, Structural)]
pub enum OutputChange {
    Enter,
    Leave,
}

/// The surface and the output overlap in a region of positive area.
pub open spec fn overlaps(output_rect: IRect, surface_rect: IRect) -> bool {
    let i = output_rect.spec_intersection(surface_rect);
    i.spec_width() * i.spec_height() > 0
}

/// The decision for one surface/output pair: on the first pass the surface
/// enters an output it overlaps, on the second it leaves one it no longer
/// overlaps; in both, only where the output is not on the surface's list of
/// entered outputs already.
pub open spec fn spec_surface_enter_output(
    pass: OutputPass,
    output_rect: IRect,
    surface_rect: IRect,
    listed: bool,
) -> Option<OutputChange> {
    match pass {
        OutputPass::NewConnection => if overlaps(output_rect, surface_rect) && !listed {
            Some(OutputChange::Enter)
        } else {
            None
        },
        OutputPass::OldConnection => if !overlaps(output_rect, surface_rect) && !listed {
            Some(OutputChange::Leave)
        } else {
            None
        },
    }
}

/// Whether the two rectangles overlap in a region of positive area.
pub fn has_overlap(output_rect: IRect, surface_rect: IRect) -> (r: bool)
    ensures
        r == overlaps(output_rect, surface_rect),
{
    let i = output_rect.intersection(surface_rect);
    proof {
        crate::util::rect::lemma_intersection_not_inverted(output_rect, surface_rect);
        let w = i.spec_width();
        let h = i.spec_height();
        assert(w >= 0 && h >= 0 ==> (w * h > 0 <==> (w > 0 && h > 0))) by (nonlinear_arith);
    }
    i.max.x > i.min.x && i.max.y > i.min.y
}

/// Decides whether a surface enters or leaves an output.
pub fn surface_enter_output(
    pass: OutputPass,
    output_rect: IRect,
    surface_rect: IRect,
    listed: bool,
) -> (r: Option<OutputChange>)
    ensures
        r == spec_surface_enter_output(pass, output_rect, surface_rect, listed),
{
    let overlap = has_overlap(output_rect, surface_rect);
    match pass {
        OutputPass::NewConnection => if overlap && !listed {
            Some(OutputChange::Enter)
        } else {
            None
        },
        OutputPass::OldConnection => if !overlap && !listed {
            Some(OutputChange::Leave)
        } else {
            None
        },
    }
}

/// A surface and an output never get both answers for one pair: the first
/// pass only enters where the second would not leave.
pub proof fn lemma_enter_and_leave_exclusive(output_rect: IRect, surface_rect: IRect, listed: bool)
    ensures
        !(spec_surface_enter_output(OutputPass::NewConnection, output_rect, surface_rect, listed)
            is Some && spec_surface_enter_output(
            OutputPass::OldConnection,
            output_rect,
            surface_rect,
            listed,
        ) is Some),
{
}

} // verus!
