//! The double-buffered state of a `wl_surface`.
//!
//! Requests write the pending state; a commit moves it into the committed
//! state at once.
use vstd::prelude::*;
use crate::entity::Entity;
use crate::util::rect::{fits_i32, irect, IRect, IVec2};
use wayland_backend::server::GlobalId;

verus! {

/// The state a client has requested since its last commit. `None` means
/// "not requested"; for the buffers, `Some(None)` requests no buffer.
pub struct WlSurfacePeddingState {
    /// The protocol id of the attached `wl_buffer` resource.
    pub wl_buffer: Option<Option<u32>>,
    pub buffer: Option<Option<Entity>>,
    pub position: Option<IVec2>,
    pub damages: Vec<IRect>,
    /// The protocol ids of the frame callbacks.
    pub callbacks: Vec<u32>,
    pub opaque_region: Option<Entity>,
    pub input_region: Option<Entity>,
    pub scale: Option<i32>,
    pub offset: Option<IVec2>,
    pub window_geometry: Option<IRect>,
}

/// The state in effect since the last commit.
pub struct WlSurfaceCommitedState {
    /// The protocol id of the `wl_buffer` resource in use.
    pub wl_buffer: Option<u32>,
    pub buffer: Option<Entity>,
    pub position: Option<IVec2>,
    pub damages: Vec<IRect>,
    pub callbacks: Vec<u32>,
    pub opaque_region: Option<Entity>,
    pub input_region: Option<Entity>,
    pub scale: Option<i32>,
    pub offset: Option<IVec2>,
    pub window_geometry: Option<IRect>,
}

impl WlSurfacePeddingState {
    /// Nothing requested.
    pub fn new() -> (r: Self)
        ensures
            r.is_empty(),
    {
        WlSurfacePeddingState {
            wl_buffer: None,
            buffer: None,
            position: None,
            damages: Vec::new(),
            callbacks: Vec::new(),
            opaque_region: None,
            input_region: None,
            scale: None,
            offset: None,
            window_geometry: None,
        }
    }

    /// Nothing is requested except, possibly, a window geometry (which a
    /// commit takes in a second step).
    pub open spec fn is_empty_but_geometry(&self) -> bool {
        &&& self.wl_buffer is None
        &&& self.buffer is None
        &&& self.position is None
        &&& self.damages@.len() == 0
        &&& self.callbacks@.len() == 0
        &&& self.opaque_region is None
        &&& self.input_region is None
        &&& self.scale is None
        &&& self.offset is None
    }

    /// Nothing is requested.
    pub open spec fn is_empty(&self) -> bool {
        self.is_empty_but_geometry() && self.window_geometry is None
    }
}

impl WlSurfaceCommitedState {
    /// No state yet.
    pub fn new() -> (r: Self)
        ensures
            r.wl_buffer is None,
            r.buffer is None,
            r.position is None,
            r.damages@.len() == 0,
            r.callbacks@.len() == 0,
            r.opaque_region is None,
            r.input_region is None,
            r.scale is None,
            r.offset is None,
            r.window_geometry is None,
    {
        WlSurfaceCommitedState {
            wl_buffer: None,
            buffer: None,
            position: None,
            damages: Vec::new(),
            callbacks: Vec::new(),
            opaque_region: None,
            input_region: None,
            scale: None,
            offset: None,
            window_geometry: None,
        }
    }
}

/// The size of the image a surface is drawn into.
#[derive(Clone, Copy, PartialEq, Eq, Debug, Structural)]
pub struct ImageExtent {
    pub width: u32,
    pub height: u32,
}

/// A `wl_surface`.
pub struct WlSurface {
    pub commited: WlSurfaceCommitedState,
    pub pending: WlSurfacePeddingState,
    pub just_commit: bool,
    pub size: Option<IVec2>,
    pub commit_time: u32,
    pub commit_count: u32,
}

/// The rectangle of an image of size `size` (the origin when unknown).
pub open spec fn image_rect_of(size: Option<IVec2>) -> IRect {
    match size {
        Some(s) => irect(0, 0, s.x as int, s.y as int),
        None => irect(0, 0, 0, 0),
    }
}

/// The part of an image of size `size` that the window geometry `g` covers
/// (all of the image when there is none).
pub open spec fn window_area_for(size: Option<IVec2>, g: Option<IRect>) -> IRect {
    let image = image_rect_of(size);
    match g {
        Some(g) => g.spec_intersection(image),
        None => image.spec_intersection(image),
    }
}

/// What a commit hands back.
pub struct CommitOutcome {
    /// The buffer in use before the commit.
    pub old_buffer: Option<Entity>,
    /// The buffer in use after it.
    pub buffer: Option<Entity>,
    pub input_region: Option<Entity>,
    pub opaque_region: Option<Entity>,
    /// The `wl_buffer` that the commit replaced, to be released.
    pub released_wl_buffer: Option<u32>,
    /// The size a popup is to be first configured with.
    pub popup_configure: Option<IVec2>,
}

/// What an attach hands back.
pub struct AttachOutcome {
    /// A non-zero offset was passed on a version 5 or later surface: a
    /// protocol error to post to the client.
    pub invalid_offset: bool,
    /// The pending `wl_buffer` that the attach replaced, to be released.
    pub released_wl_buffer: Option<u32>,
}

impl WlSurface {
    /// A surface with nothing attached or committed.
    pub fn new() -> (r: WlSurface)
        ensures
            r.pending.is_empty(),
            r.commited.buffer is None,
            r.commited.wl_buffer is None,
            r.commited.position is None,
            r.commited.damages@.len() == 0,
            r.commited.callbacks@.len() == 0,
            r.commited.opaque_region is None,
            r.commited.input_region is None,
            r.commited.scale is None,
            r.commited.offset is None,
            r.commited.window_geometry is None,
            !r.just_commit,
            r.size is None,
            r.commit_time == 0,
            r.commit_count == 0,
    {
        WlSurface {
            commited: WlSurfaceCommitedState::new(),
            pending: WlSurfacePeddingState::new(),
            just_commit: false,
            size: None,
            commit_time: 0,
            commit_count: 0,
        }
    }

    /// The part of the image that the committed window geometry covers (all
    /// of the image when there is none).
    pub open spec fn spec_window_area_in_image(&self) -> IRect {
        window_area_for(self.size, self.commited.window_geometry)
    }

    pub fn window_area_in_image(&self) -> (r: IRect)
        ensures
            r == self.spec_window_area_in_image(),
    {
        let size = match self.size {
            Some(s) => s,
            None => IVec2::zero(),
        };
        let image_rect = IRect::from_pos_size(IVec2::zero(), size);
        let window_geometry = match self.commited.window_geometry {
            Some(g) => g,
            None => image_rect,
        };
        window_geometry.intersection(image_rect)
    }

    /// The image placed so that the window area starts at the origin.
    pub fn image_rect(&self) -> (r: IRect)
        requires
            self.spec_window_area_in_image().min.x != i32::MIN,
            self.spec_window_area_in_image().min.y != i32::MIN,
            fits_i32(-self.spec_window_area_in_image().min.x + match self.size {
                Some(s) => s.x as int,
                None => 0,
            }),
            fits_i32(-self.spec_window_area_in_image().min.y + match self.size {
                Some(s) => s.y as int,
                None => 0,
            }),
        ensures
            ({
                let a = self.spec_window_area_in_image();
                let s = match self.size {
                    Some(s) => s,
                    None => IVec2 { x: 0, y: 0 },
                };
                r == irect(-a.min.x, -a.min.y, -a.min.x + s.x, -a.min.y + s.y)
            }),
    {
        let window_area = self.window_area_in_image();
        let size = match self.size {
            Some(s) => s,
            None => IVec2::zero(),
        };
        IRect::from_pos_size(window_area.pos().neg(), size)
    }

    /// The size to ask of a toplevel so that its window geometry gets `size`:
    /// the part of the window geometry outside the image is added.
    pub open spec fn spec_toplevel_size(&self, size: IVec2) -> (int, int) {
        match self.commited.window_geometry {
            Some(g) => {
                let a = self.spec_window_area_in_image();
                (
                    size.x + (g.spec_width() - a.spec_width()),
                    size.y + (g.spec_height() - a.spec_height()),
                )
            },
            None => (size.x as int, size.y as int),
        }
    }

    /// The sizes that [`Self::calculate_toplevel_size`] computes stay in `i32`.
    pub open spec fn toplevel_size_fits(&self, size: IVec2) -> bool {
        match self.commited.window_geometry {
            Some(g) => {
                let a = self.spec_window_area_in_image();
                &&& g.size_fits()
                &&& a.size_fits()
                &&& fits_i32(g.spec_width() - a.spec_width())
                &&& fits_i32(g.spec_height() - a.spec_height())
                &&& fits_i32(size.x + (g.spec_width() - a.spec_width()))
                &&& fits_i32(size.y + (g.spec_height() - a.spec_height()))
            },
            None => true,
        }
    }

    pub fn calculate_toplevel_size(&self, size: IVec2) -> (r: IVec2)
        requires
            self.toplevel_size_fits(size),
        ensures
            (r.x as int, r.y as int) == self.spec_toplevel_size(size),
    {
        let window_area = self.window_area_in_image();
        match self.commited.window_geometry {
            Some(window_geometry) => {
                let d = window_geometry.size().sub(window_area.size());
                size.add(d)
            },
            None => size,
        }
    }

    /// Gives the surface an image of size `size`: the whole image is damaged
    /// and the commit counter starts again. Returns the extent of the new image.
    pub fn resize(&mut self, size: IVec2) -> (r: ImageExtent)
        ensures
            r.width == size.x as u32,
            r.height == size.y as u32,
            final(self).size == Some(size),
            final(self).commited.damages@ == old(self).commited.damages@.push(
                irect(0, 0, size.x as int, size.y as int),
            ),
            final(self).just_commit,
            final(self).commit_count == 0,
            final(self).commited.buffer == old(self).commited.buffer,
            final(self).commited.wl_buffer == old(self).commited.wl_buffer,
            final(self).commited.callbacks == old(self).commited.callbacks,
            final(self).commited.window_geometry == old(self).commited.window_geometry,
            final(self).pending == old(self).pending,
            final(self).commit_time == old(self).commit_time,
    {
        let extent = ImageExtent { width: size.x as u32, height: size.y as u32 };
        self.size = Some(size);
        self.commited.damages.push(IRect::from_pos_size(IVec2::zero(), size));
        self.just_commit = true;
        self.commit_count = 0;
        extent
    }

    /// Attaches a buffer (`None` detaches): `buffer` pairs the protocol id of
    /// the `wl_buffer` with the buffer's entity. `version` is the version of
    /// the surface object.
    pub fn attach(&mut self, buffer: Option<(u32, Entity)>, x: i32, y: i32, version: u32) -> (r:
        AttachOutcome)
        ensures
            version < 5 ==> final(self).pending.position == Some(IVec2 { x, y }),
            version >= 5 ==> final(self).pending.position == old(self).pending.position,
            r.invalid_offset == (version >= 5 && (x != 0 || y != 0)),
            final(self).pending.buffer == Some(
                match buffer {
                    Some(b) => Some(b.1),
                    None => None::<Entity>,
                },
            ),
            final(self).pending.wl_buffer == Some(
                match buffer {
                    Some(b) => Some(b.0),
                    None => None::<u32>,
                },
            ),
            r.released_wl_buffer == match old(self).pending.wl_buffer {
                Some(Some(b)) => Some(b),
                _ => None::<u32>,
            },
            final(self).pending.damages == old(self).pending.damages,
            final(self).pending.callbacks == old(self).pending.callbacks,
            final(self).pending.opaque_region == old(self).pending.opaque_region,
            final(self).pending.input_region == old(self).pending.input_region,
            final(self).pending.scale == old(self).pending.scale,
            final(self).pending.offset == old(self).pending.offset,
            final(self).pending.window_geometry == old(self).pending.window_geometry,
            *final(self) == (WlSurface { pending: final(self).pending, ..*old(self) }),
    {
        let mut invalid_offset = false;
        if version < 5 {
            self.pending.position = Some(IVec2::new(x, y));
        } else if x != 0 || y != 0 {
            invalid_offset = true;
        }
        let (wl_buffer, entity) = match buffer {
            Some(b) => (Some(b.0), Some(b.1)),
            None => (None, None),
        };
        self.pending.buffer = Some(entity);
        let previous = self.pending.wl_buffer;
        self.pending.wl_buffer = Some(wl_buffer);
        let released_wl_buffer = match previous {
            Some(Some(b)) => Some(b),
            _ => None,
        };
        AttachOutcome { invalid_offset, released_wl_buffer }
    }

    /// Adds a damaged rectangle to the pending state.
    pub fn damage(&mut self, x: i32, y: i32, width: i32, height: i32)
        requires
            fits_i32(x + width),
            fits_i32(y + height),
        ensures
            final(self).pending.damages@ == old(self).pending.damages@.push(
                irect(x as int, y as int, x + width, y + height),
            ),
            final(self).pending == (WlSurfacePeddingState {
                damages: final(self).pending.damages,
                ..old(self).pending
            }),
            *final(self) == (WlSurface { pending: final(self).pending, ..*old(self) }),
    {
        self.pending.damages.push(IRect::new(x, y, width, height));
    }

    /// Adds a frame callback to the pending state.
    pub fn frame(&mut self, callback: u32)
        ensures
            final(self).pending.callbacks@ == old(self).pending.callbacks@.push(callback),
            final(self).pending == (WlSurfacePeddingState {
                callbacks: final(self).pending.callbacks,
                ..old(self).pending
            }),
            *final(self) == (WlSurface { pending: final(self).pending, ..*old(self) }),
    {
        self.pending.callbacks.push(callback);
    }

    /// Sets (or clears) the pending opaque region.
    pub fn set_opaque_region(&mut self, region: Option<Entity>)
        ensures
            final(self).pending == (WlSurfacePeddingState { opaque_region: region, ..old(self).pending }),
            *final(self) == (WlSurface { pending: final(self).pending, ..*old(self) }),
    {
        self.pending.opaque_region = region;
    }

    /// Sets (or clears) the pending input region.
    pub fn set_input_region(&mut self, region: Option<Entity>)
        ensures
            final(self).pending == (WlSurfacePeddingState { input_region: region, ..old(self).pending }),
            *final(self) == (WlSurface { pending: final(self).pending, ..*old(self) }),
    {
        self.pending.input_region = region;
    }

    /// Sets the pending buffer scale.
    pub fn set_buffer_scale(&mut self, scale: i32)
        ensures
            final(self).pending == (WlSurfacePeddingState { scale: Some(scale), ..old(self).pending }),
            *final(self) == (WlSurface { pending: final(self).pending, ..*old(self) }),
    {
        self.pending.scale = Some(scale);
    }

    /// Sets the pending offset.
    pub fn set_offset(&mut self, x: i32, y: i32)
        ensures
            final(self).pending == (WlSurfacePeddingState { offset: Some(IVec2 { x, y }), ..old(self).pending }),
            *final(self) == (WlSurface { pending: final(self).pending, ..*old(self) }),
    {
        self.pending.offset = Some(IVec2::new(x, y));
    }

    /// Sets the pending window geometry.
    pub fn set_window_geometry(&mut self, rect: IRect)
        ensures
            final(self).pending == (WlSurfacePeddingState { window_geometry: Some(rect), ..old(self).pending }),
            *final(self) == (WlSurface { pending: final(self).pending, ..*old(self) }),
    {
        self.pending.window_geometry = Some(rect);
    }

    /// The committed offset after adding the pending one stays in `i32`.
    pub open spec fn offset_fits(&self) -> bool {
        match self.pending.offset {
            Some(o) => {
                let base = match self.commited.offset {
                    Some(c) => c,
                    None => IVec2 { x: 0, y: 0 },
                };
                base.can_add(o)
            },
            None => true,
        }
    }

    /// Commits the pending state (all of it but the window geometry, which
    /// [`Self::commit_window_geometry`] takes). `frame_count` is the current
    /// frame; `popup_configured` tells, for a surface with the popup role,
    /// whether its popup has had its first configure (which the popup has
    /// once this commit is done).
    pub fn commit(&mut self, frame_count: u32, popup_configured: Option<bool>) -> (r: CommitOutcome)
        requires
            old(self).offset_fits(),
            old(self).commit_count < u32::MAX,
        ensures
            r.old_buffer == old(self).commited.buffer,
            final(self).commited.buffer == match old(self).pending.buffer {
                Some(b) => b,
                None => old(self).commited.buffer,
            },
            r.buffer == final(self).commited.buffer,
            final(self).commited.position == match old(self).pending.position {
                Some(p) => Some(p),
                None => old(self).commited.position,
            },
            final(self).commited.opaque_region == match old(self).pending.opaque_region {
                Some(p) => Some(p),
                None => old(self).commited.opaque_region,
            },
            r.opaque_region == final(self).commited.opaque_region,
            final(self).commited.input_region == match old(self).pending.input_region {
                Some(p) => Some(p),
                None => old(self).commited.input_region,
            },
            r.input_region == final(self).commited.input_region,
            final(self).commited.scale == match old(self).pending.scale {
                Some(p) => Some(p),
                None => old(self).commited.scale,
            },
            final(self).commited.offset == match old(self).pending.offset {
                Some(o) => {
                    let base = match old(self).commited.offset {
                        Some(c) => c,
                        None => IVec2 { x: 0, y: 0 },
                    };
                    Some(IVec2 { x: (base.x + o.x) as i32, y: (base.y + o.y) as i32 })
                },
                None => old(self).commited.offset,
            },
            final(self).commited.wl_buffer == match old(self).pending.wl_buffer {
                Some(b) => b,
                None => old(self).commited.wl_buffer,
            },
            r.released_wl_buffer == match old(self).pending.wl_buffer {
                Some(_) => old(self).commited.wl_buffer,
                None => None::<u32>,
            },
            final(self).commited.damages@ == old(self).commited.damages@
                + old(self).pending.damages@,
            final(self).commited.callbacks@ == old(self).commited.callbacks@
                + old(self).pending.callbacks@,
            final(self).commited.window_geometry == old(self).commited.window_geometry,
            final(self).pending.is_empty_but_geometry(),
            final(self).pending.window_geometry == old(self).pending.window_geometry,
            final(self).just_commit,
            final(self).commit_time == frame_count,
            final(self).commit_count == old(self).commit_count + 1,
            final(self).size == old(self).size,
            r.popup_configure == match popup_configured {
                Some(false) => Some(
                    match old(self).size {
                        Some(s) => s,
                        None => IVec2 { x: 0, y: 0 },
                    },
                ),
                _ => None::<IVec2>,
            },
    {
        let old_buffer = self.commited.buffer;
        match self.pending.buffer.take() {
            Some(v) => {
                self.commited.buffer = v;
            },
            None => {},
        }
        match self.pending.position.take() {
            Some(v) => {
                self.commited.position = Some(v);
            },
            None => {},
        }
        match self.pending.opaque_region.take() {
            Some(v) => {
                self.commited.opaque_region = Some(v);
            },
            None => {},
        }
        match self.pending.input_region.take() {
            Some(v) => {
                self.commited.input_region = Some(v);
            },
            None => {},
        }
        match self.pending.scale.take() {
            Some(v) => {
                self.commited.scale = Some(v);
            },
            None => {},
        }
        match self.pending.offset.take() {
            Some(o) => {
                let base = match self.commited.offset {
                    Some(c) => c,
                    None => IVec2::zero(),
                };
                self.commited.offset = Some(base.add(o));
            },
            None => {},
        }
        let mut released_wl_buffer = None;
        match self.pending.wl_buffer.take() {
            Some(b) => {
                released_wl_buffer = self.commited.wl_buffer;
                self.commited.wl_buffer = b;
            },
            None => {},
        }
        let mut damages = Vec::new();
        std::mem::swap(&mut damages, &mut self.pending.damages);
        self.commited.damages.append(&mut damages);
        let mut callbacks = Vec::new();
        std::mem::swap(&mut callbacks, &mut self.pending.callbacks);
        self.commited.callbacks.append(&mut callbacks);
        self.just_commit = true;
        self.commit_time = frame_count;
        self.commit_count = self.commit_count + 1;
        let popup_configure = match popup_configured {
            Some(false) => Some(
                match self.size {
                    Some(s) => s,
                    None => IVec2::zero(),
                },
            ),
            _ => None,
        };
        CommitOutcome {
            old_buffer,
            buffer: self.commited.buffer,
            input_region: self.commited.input_region,
            opaque_region: self.commited.opaque_region,
            released_wl_buffer,
            popup_configure,
        }
    }

    /// Second step of a commit: takes a pending window geometry and gives the
    /// surface's own geometry (when it has one) the size of its window area;
    /// without any window geometry, the size of the image.
    pub fn commit_window_geometry(&mut self, geometry: &mut Option<IRect>)
        requires
            match *old(geometry) {
                Some(g) => {
                    &&& old(self).pending.window_geometry is Some ==> {
                        let a = window_area_for(old(self).size, old(self).pending.window_geometry);
                        a.size_fits() && fits_i32(g.min.x + a.spec_width()) && fits_i32(
                            g.min.y + a.spec_height(),
                        )
                    }
                    &&& (old(self).pending.window_geometry is None
                        && old(self).commited.window_geometry is None) ==> {
                        let s = match old(self).size {
                            Some(s) => s,
                            None => IVec2 { x: 0, y: 0 },
                        };
                        fits_i32(g.min.x + s.x) && fits_i32(g.min.y + s.y)
                    }
                },
                None => true,
            },
        ensures
            final(self).pending.window_geometry is None,
            final(self).commited.window_geometry == match old(self).pending.window_geometry {
                Some(g) => Some(g),
                None => old(self).commited.window_geometry,
            },
            final(self).size == old(self).size,
            final(self).commited.buffer == old(self).commited.buffer,
            final(self).commited.damages == old(self).commited.damages,
            match *old(geometry) {
                Some(g) => {
                    if old(self).pending.window_geometry is Some {
                        let a = final(self).spec_window_area_in_image();
                        *final(geometry) == Some(
                            irect(
                                g.min.x as int,
                                g.min.y as int,
                                g.min.x + a.spec_width(),
                                g.min.y + a.spec_height(),
                            ),
                        )
                    } else if old(self).commited.window_geometry is None {
                        let s = match old(self).size {
                            Some(s) => s,
                            None => IVec2 { x: 0, y: 0 },
                        };
                        *final(geometry) == Some(
                            irect(g.min.x as int, g.min.y as int, g.min.x + s.x, g.min.y + s.y),
                        )
                    } else {
                        *final(geometry) == *old(geometry)
                    }
                },
                None => *final(geometry) is None,
            },
    {
        match self.pending.window_geometry.take() {
            Some(window_geometry) => {
                self.commited.window_geometry = Some(window_geometry);
                match geometry {
                    Some(g) => {
                        let area = self.window_area_in_image();
                        let mut r = *g;
                        r.set_size(area.size());
                        *geometry = Some(r);
                    },
                    None => {},
                }
            },
            None => {
                if self.commited.window_geometry.is_none() {
                    match geometry {
                        Some(g) => {
                            let size = match self.size {
                                Some(s) => s,
                                None => IVec2::zero(),
                            };
                            let mut r = *g;
                            r.set_size(size);
                            *geometry = Some(r);
                        },
                        None => {},
                    }
                }
            },
        }
    }
}

/// Gives a surface the size of the buffer it has just committed, making a
/// new image when the size changed. `buffer_size` is the size of that buffer
/// (`None` when the buffer is of a kind with no known size). Returns the
/// extent of the new image, if one was made.
pub fn update_buffer_size(surface: &mut WlSurface, buffer_size: Option<IVec2>) -> (r: Option<
    ImageExtent,
>)
    ensures
        match buffer_size {
            Some(s) => if old(surface).size == Some(s) {
                r is None && *final(surface) == *old(surface)
            } else {
                &&& r == Some(ImageExtent { width: s.x as u32, height: s.y as u32 })
                &&& final(surface).size == Some(s)
                &&& final(surface).commited.damages@ == old(surface).commited.damages@.push(
                    irect(0, 0, s.x as int, s.y as int),
                )
                &&& final(surface).just_commit
                &&& final(surface).commit_count == 0
            },
            None => r is None && *final(surface) == *old(surface),
        },
{
    match buffer_size {
        Some(size) => {
            let same = match surface.size {
                Some(s) => s == size,
                None => false,
            };
            if !same {
                Some(surface.resize(size))
            } else {
                None
            }
        },
        None => None,
    }
}

/// The buffers to release once a frame is done: those that some surface
/// has attached. Each entry pairs a buffer's protocol id with the number of
/// surfaces it is attached to.
pub fn cleanup_buffer(buffers: &Vec<(u32, usize)>) -> (r: Vec<u32>)
    ensures
        r@ == buffers@.filter(|b: (u32, usize)| b.1 > 0).map_values(|b: (u32, usize)| b.0),
{
    let mut out: Vec<u32> = Vec::new();
    let mut i: usize = 0;
    while i < buffers.len()
        invariant
            i <= buffers.len(),
            out@ == buffers@.take(i as int).filter(|b: (u32, usize)| b.1 > 0).map_values(
                |b: (u32, usize)| b.0,
            ),
        decreases buffers.len() - i,
    {
        let ghost pre = buffers@.take(i as int);
        assert(buffers@.take(i + 1) == pre.push(buffers@[i as int]));
        reveal(Seq::filter);
        assert(pre.push(buffers@[i as int]).drop_last() == pre);
        if buffers[i].1 > 0 {
            out.push(buffers[i].0);
            assert(pre.push(buffers@[i as int]).filter(|b: (u32, usize)| b.1 > 0) == pre.filter(
                |b: (u32, usize)| b.1 > 0,
            ).push(buffers@[i as int]));
        }
        i = i + 1;
    }
    assert(buffers@.take(buffers.len() as int) == buffers@);
    out
}

/// Clears what a frame has consumed: the committed damages and callbacks,
/// and the mark of a fresh commit.
pub fn cleanup_surface(surface: &mut WlSurface)
    ensures
        final(surface).commited.damages@.len() == 0,
        final(surface).commited.callbacks@.len() == 0,
        !final(surface).just_commit,
        final(surface).commited == (WlSurfaceCommitedState {
            damages: final(surface).commited.damages,
            callbacks: final(surface).commited.callbacks,
            ..old(surface).commited
        }),
        *final(surface) == (WlSurface {
            commited: final(surface).commited,
            just_commit: false,
            ..*old(surface)
        }),
{
    surface.commited.damages.clear();
    surface.commited.callbacks.clear();
    surface.just_commit = false;
}

/// A `wl_subsurface`.
pub struct WlSubsurface {
    pub position: Option<IVec2>,
    pub above: Option<Entity>,
    pub below: Option<Entity>,
    pub sync: bool,
    pub desync: bool,
}

impl WlSubsurface {
    pub fn new() -> (r: WlSubsurface)
        ensures
            r.position is None,
            r.above is None,
            r.below is None,
            !r.sync,
            !r.desync,
    {
        WlSubsurface { position: None, above: None, below: None, sync: false, desync: false }
    }

    pub fn set_position(&mut self, x: i32, y: i32)
        ensures
            final(self).position == Some(IVec2 { x, y }),
            final(self).sync == old(self).sync,
            final(self).desync == old(self).desync,
    {
        self.position = Some(IVec2::new(x, y));
    }

    pub fn set_sync(&mut self)
        ensures
            final(self).sync,
            final(self).position == old(self).position,
            final(self).desync == old(self).desync,
    {
        self.sync = true;
    }

    /// A desync request clears the `desync` mark.
    pub fn set_desync(&mut self)
        ensures
            !final(self).desync,
            final(self).position == old(self).position,
            final(self).sync == old(self).sync,
    {
        self.desync = false;
    }
}

/// The global of `wl_surface` objects.
pub struct SurfaceDelegate(pub GlobalId);

/// The plugin for surfaces.
pub struct WlSurfacePlugin;

} // verus!
