//! Drawing the mouse cursor onto a captured frame.

use vstd::prelude::*;

use crate::platform::{
    bgra8_format, default_usage, shader_resource_flag, BIND_SHADER_RESOURCE, FORMAT_BGRA8,
    USAGE_DEFAULT,
};

verus! {

/// Bytes in one pixel of a color cursor.
pub const BYTES_PER_PIXEL: u32 = 4;

/// The kind and size of a cursor image.
#[derive(Clone, Copy, Debug, PartialEq, Eq, Structural)]
pub enum CursorShape {
    Color { width: u32, height: u32 },
    MaskedColor { width: u32, height: u32 },
    Monochrome { width: u32, height: u32 },
}

/// What is known of the cursor when a frame is captured.
#[derive(Clone, Copy, Debug, PartialEq, Eq)]
pub struct CursorInfo {
    /// Where the cursor points, in pixels of the frame.
    pub position: (i32, i32),
    /// Which pixel of the image does the pointing. The bits are read as a signed number.
    pub hotspot: (u32, u32),
    /// Whether the cursor shows.
    pub visible: bool,
    /// The image, if there is one.
    pub shape: Option<CursorShape>,
}

/// The texture that a cursor image is loaded into, and the layout of the image in memory.
#[derive(Clone, Copy, Debug, PartialEq, Eq, Structural)]
pub struct CursorTexture {
    pub width: u32,
    pub height: u32,
    pub mip_levels: u32,
    pub array_size: u32,
    pub format: u32,
    pub sample_count: u32,
    pub sample_quality: u32,
    pub usage: u32,
    pub bind_flags: u32,
    pub cpu_access_flags: u32,
    pub misc_flags: u32,
    /// Bytes from one row of the image to the next.
    pub row_pitch: u32,
    pub slice_pitch: u32,
}

/// A copy from the cursor texture onto the frame: where it goes, and which box of the cursor
/// texture it takes.
#[derive(Clone, Copy, Debug, PartialEq, Eq, Structural)]
pub struct CopyRegion {
    pub dest_x: u32,
    pub dest_y: u32,
    pub dest_z: u32,
    pub left: u32,
    pub top: u32,
    pub front: u32,
    pub right: u32,
    pub bottom: u32,
    pub back: u32,
}

/// What drawing a cursor comes down to.
#[derive(Clone, Copy, Debug, PartialEq, Eq)]
pub enum CursorPlan {
    /// Nothing is drawn.
    Skip,
    /// The image is loaded into a texture; where a part of it lies on the frame, that part is
    /// copied.
    Draw { texture: CursorTexture, region: Option<CopyRegion> },
}

/// An unsigned 32-bit pattern read as a signed number.
pub open spec fn as_signed(bits: u32) -> int {
    if bits <= i32::MAX {
        bits as int
    } else {
        bits - 0x1_0000_0000
    }
}

/// Where a cursor image starts along one axis.
pub open spec fn image_start(position: i32, hotspot: u32) -> int {
    position - as_signed(hotspot)
}

/// Where along one axis the copy goes: the start of the image, moved into the frame. A frame
/// too long for a signed coordinate takes nothing, so the copy goes to its end.
pub open spec fn copy_start(start: int, frame: u32) -> int {
    if frame > i32::MAX || start > frame {
        frame as int
    } else if start < 0 {
        0
    } else {
        start
    }
}

/// How many pixels are copied along one axis: as many as the image has and the frame still
/// takes.
pub open spec fn copy_extent(start: int, size: u32, frame: u32) -> int {
    let room = frame - copy_start(start, frame);
    if size <= room {
        size as int
    } else {
        room
    }
}

impl CursorInfo {
    /// Whether there is anything to draw.
    pub open spec fn drawable(self) -> bool {
        self.visible && self.shape is Some
    }

    /// Where the image starts, across.
    pub open spec fn start_x(self) -> int {
        image_start(self.position.0, self.hotspot.0)
    }

    /// Where the image starts, down.
    pub open spec fn start_y(self) -> int {
        image_start(self.position.1, self.hotspot.1)
    }

    /// Whether the arithmetic of drawing this cursor stays within 32 bits.
    pub open spec fn fits(self) -> bool {
        self.drawable() ==> {
            &&& i32::MIN <= self.start_x() <= i32::MAX
            &&& i32::MIN <= self.start_y() <= i32::MAX
            &&& color_size(self.shape->Some_0) matches Some((width, _)) ==> width * BYTES_PER_PIXEL
                <= u32::MAX
        }
    }
}

/// The size of an image that can be drawn: one in color.
pub open spec fn color_size(shape: CursorShape) -> Option<(u32, u32)> {
    match shape {
        CursorShape::Color { width, height } => Some((width, height)),
        CursorShape::MaskedColor { width, height } => Some((width, height)),
        CursorShape::Monochrome { .. } => None,
    }
}

/// The texture for a color image of the given size.
pub open spec fn texture_for(width: u32, height: u32) -> CursorTexture {
    CursorTexture {
        width,
        height,
        mip_levels: 1,
        array_size: 1,
        format: FORMAT_BGRA8,
        sample_count: 1,
        sample_quality: 0,
        usage: USAGE_DEFAULT,
        bind_flags: BIND_SHADER_RESOURCE,
        cpu_access_flags: 0,
        misc_flags: 0,
        row_pitch: (width * BYTES_PER_PIXEL) as u32,
        slice_pitch: 0,
    }
}

/// The part of an image of the given size, starting at the given point, that is copied onto a
/// frame; nothing when no pixel is left.
pub open spec fn region_for(
    start_x: int,
    start_y: int,
    width: u32,
    height: u32,
    frame_width: u32,
    frame_height: u32,
) -> Option<CopyRegion> {
    let right = copy_extent(start_x, width, frame_width);
    let bottom = copy_extent(start_y, height, frame_height);
    if right > 0 && bottom > 0 {
        Some(
            CopyRegion {
                dest_x: copy_start(start_x, frame_width) as u32,
                dest_y: copy_start(start_y, frame_height) as u32,
                dest_z: 0,
                left: 0,
                top: 0,
                front: 0,
                right: right as u32,
                bottom: bottom as u32,
                back: 1,
            },
        )
    } else {
        None
    }
}

/// How a cursor is drawn onto a frame of the given size.
pub open spec fn plan_for(info: CursorInfo, frame_width: u32, frame_height: u32) -> CursorPlan {
    if !info.drawable() {
        CursorPlan::Skip
    } else {
        match color_size(info.shape->Some_0) {
            None => CursorPlan::Skip,
            Some((width, height)) => CursorPlan::Draw {
                texture: texture_for(width, height),
                region: region_for(
                    info.start_x(),
                    info.start_y(),
                    width,
                    height,
                    frame_width,
                    frame_height,
                ),
            },
        }
    }
}

/// Reads a 32-bit pattern as a signed number.
fn signed(bits: u32) -> (n: i64)
    ensures
        n == as_signed(bits),
{
    if bits <= 0x7fff_ffff {
        bits as i64
    } else {
        bits as i64 - 0x1_0000_0000
    }
}

/// Finds where along one axis the copy goes, and how many pixels it takes.
fn place(start: i64, size: u32, frame: u32) -> (r: (u32, u32))
    requires
        i32::MIN <= start <= i32::MAX,
    ensures
        r.0 == copy_start(start as int, frame),
        r.1 == copy_extent(start as int, size, frame),
{
    let dest: u32 = if frame > 0x7fff_ffff || start > frame as i64 {
        frame
    } else if start < 0 {
        0
    } else {
        start as u32
    };
    let room: u32 = frame - dest;
    (
        dest,
        if size <= room {
            size
        } else {
            room
        },
    )
}

impl CursorInfo {
    /// Whether there is anything to draw.
    pub fn is_drawable(&self) -> (b: bool)
        ensures
            b == self.drawable(),
            b <==> self.visible && self.shape is Some,
    {
        self.visible && self.shape.is_some()
    }

    /// Whether the arithmetic of drawing this cursor stays within 32 bits.
    pub fn can_place(&self) -> (b: bool)
        ensures
            b == self.fits(),
    {
        if !self.is_drawable() {
            return true;
        }
        let start_x: i64 = self.position.0 as i64 - signed(self.hotspot.0);
        let start_y: i64 = self.position.1 as i64 - signed(self.hotspot.1);
        let in_range: bool = -0x8000_0000 <= start_x && start_x <= 0x7fff_ffff && -0x8000_0000
            <= start_y && start_y <= 0x7fff_ffff;
        match self.shape {
            Some(CursorShape::Color { width, .. }) | Some(CursorShape::MaskedColor { width, .. }) =>
            in_range && width <= u32::MAX / BYTES_PER_PIXEL,
            _ => in_range,
        }
    }
}

/// Works out how a cursor is drawn onto a frame of the given size.
///
/// A hidden cursor and one without an image are skipped, and so is a monochrome one. A color
/// image is drawn with its hotspot at the cursor's position, moved to the edge of the frame
/// where it starts outside, and cut off where it ends outside.
pub fn draw_cursor(cursor_info: &CursorInfo, frame_width: u32, frame_height: u32) -> (plan:
    CursorPlan)
    requires
        cursor_info.fits(),
    ensures
        plan == plan_for(*cursor_info, frame_width, frame_height),
{
    if !cursor_info.visible || cursor_info.shape.is_none() {
        return CursorPlan::Skip;
    }
    let start_x: i64 = cursor_info.position.0 as i64 - signed(cursor_info.hotspot.0);
    let start_y: i64 = cursor_info.position.1 as i64 - signed(cursor_info.hotspot.1);
    match cursor_info.shape {
        Some(CursorShape::Color { width, height })
        | Some(CursorShape::MaskedColor { width, height }) => {
            let texture = CursorTexture {
                width,
                height,
                mip_levels: 1,
                array_size: 1,
                format: bgra8_format(),
                sample_count: 1,
                sample_quality: 0,
                usage: default_usage(),
                bind_flags: shader_resource_flag(),
                cpu_access_flags: 0,
                misc_flags: 0,
                row_pitch: width * BYTES_PER_PIXEL,
                slice_pitch: 0,
            };
            let (dest_x, copy_width) = place(start_x, width, frame_width);
            let (dest_y, copy_height) = place(start_y, height, frame_height);
            let region = if copy_width > 0 && copy_height > 0 {
                Some(
                    CopyRegion {
                        dest_x,
                        dest_y,
                        dest_z: 0,
                        left: 0,
                        top: 0,
                        front: 0,
                        right: copy_width,
                        bottom: copy_height,
                        back: 1,
                    },
                )
            } else {
                None
            };
            CursorPlan::Draw { texture, region }
        },
        _ => CursorPlan::Skip,
    }
}

} // verus!
