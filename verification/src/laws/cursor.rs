//! Drawing the cursor.

use vstd::prelude::*;

use crate::capture::{CaptureModel, Phase};
use crate::cursor::{
    color_size, plan_for, CopyRegion, CursorInfo, CursorPlan, CursorShape, CursorTexture,
};
use crate::frame::FrameStep;
use crate::laws::{run, runs};
use crate::protocol::{Action, Event};

verus! {

/// A cursor is never drawn outside the frame, nor from outside its own image: what is copied is
/// not empty, lies within the image, and ends within the frame.
pub proof fn law_cursor_stays_inside(info: CursorInfo, frame_width: u32, frame_height: u32)
    requires
        info.fits(),
    ensures
        plan_for(info, frame_width, frame_height) matches CursorPlan::Draw {
            texture,
            region: Some(region),
        } ==> {
            &&& region.left < region.right <= texture.width
            &&& region.top < region.bottom <= texture.height
            &&& region.dest_x + (region.right - region.left) <= frame_width
            &&& region.dest_y + (region.bottom - region.top) <= frame_height
            &&& texture.row_pitch == texture.width * 4
        },
{
}

/// A color image that lies wholly on the frame is copied whole, with its hotspot exactly where
/// the cursor points.
pub proof fn law_whole_cursor_is_copied(
    info: CursorInfo,
    width: u32,
    height: u32,
    frame_width: u32,
    frame_height: u32,
)
    requires
        info.fits(),
        info.drawable(),
        color_size(info.shape->Some_0) == Some((width, height)),
        width > 0,
        height > 0,
        frame_width <= i32::MAX,
        frame_height <= i32::MAX,
        0 <= info.start_x(),
        info.start_x() + width <= frame_width,
        0 <= info.start_y(),
        info.start_y() + height <= frame_height,
    ensures
        plan_for(info, frame_width, frame_height) matches CursorPlan::Draw {
            texture,
            region: Some(region),
        } && {
            &&& region.dest_x == info.start_x()
            &&& region.dest_y == info.start_y()
            &&& (region.left, region.top) == (0u32, 0u32)
            &&& (region.right, region.bottom) == (width, height)
            &&& (texture.width, texture.height) == (width, height)
        },
{
}

/// Nothing is drawn of a cursor that is hidden, has no image, or has a monochrome one.
pub proof fn law_nothing_to_draw(info: CursorInfo, frame_width: u32, frame_height: u32)
    ensures
        plan_for(info, frame_width, frame_height) == CursorPlan::Skip <==> (!info.visible
            || info.shape is None || info.shape->Some_0 is Monochrome),
{
}

/// Whether a number is what a 32-bit pattern says when it is read as signed.
pub open spec fn reads_as(bits: u32, n: int) -> bool {
    &&& -0x8000_0000 <= n < 0x8000_0000
    &&& n == bits || n == bits - 0x1_0000_0000
}

/// Whether a copy along one axis is what is left of an image between the edges of a frame. It goes
/// to the point of the frame that is nearest to where the image starts, and takes as much of the
/// image as there is room for. On a frame too long for signed coordinates it goes to the end.
pub open spec fn clipped(start: int, size: u32, frame: u32, dest: int, len: int) -> bool {
    &&& 0 <= dest <= frame
    &&& frame < 0x8000_0000 && 0 <= start <= frame ==> dest == start
    &&& frame < 0x8000_0000 && start < 0 ==> dest == 0
    &&& frame >= 0x8000_0000 || start > frame ==> dest == frame
    &&& 0 <= len <= size
    &&& dest + len <= frame
    &&& len == size || dest + len == frame
}

/// Whether a texture is made for a color image of the given size, four bytes to a pixel, and a
/// region is the part of that image, with its first pixel at the given point, that lies on a frame
/// of the given size; no region means that no part does.
pub open spec fn drawn_at(
    start_x: int,
    start_y: int,
    width: u32,
    height: u32,
    frame_width: u32,
    frame_height: u32,
    texture: CursorTexture,
    region: Option<CopyRegion>,
) -> bool {
    &&& texture.width == width
    &&& texture.height == height
    &&& texture.row_pitch == 4 * width
    &&& texture.slice_pitch == 0
    &&& texture.mip_levels == 1
    &&& texture.array_size == 1
    &&& texture.format == 87
    &&& texture.sample_count == 1
    &&& texture.sample_quality == 0
    &&& texture.usage == 0
    &&& texture.bind_flags == 8
    &&& texture.cpu_access_flags == 0
    &&& texture.misc_flags == 0
    &&& region matches Some(r) ==> {
        &&& (r.left, r.top, r.front, r.back) == (0u32, 0u32, 0u32, 1u32)
        &&& r.dest_z == 0
        &&& r.right > 0
        &&& r.bottom > 0
        &&& clipped(start_x, width, frame_width, r.dest_x as int, r.right as int)
        &&& clipped(start_y, height, frame_height, r.dest_y as int, r.bottom as int)
    }
    &&& region is None <==> {
        ||| width == 0
        ||| height == 0
        ||| frame_width == 0
        ||| frame_height == 0
        ||| frame_width >= 0x8000_0000
        ||| frame_height >= 0x8000_0000
        ||| start_x >= frame_width
        ||| start_y >= frame_height
    }
}

/// Where a cursor is drawn. Its image starts where the cursor points, less the hotspot; what lies
/// on the frame is copied there, across by the width of the frame and down by its height.
#[verifier::spinoff_prover]
pub proof fn law_where_a_cursor_is_drawn(
    info: CursorInfo,
    width: u32,
    height: u32,
    hotspot_x: int,
    hotspot_y: int,
    frame_width: u32,
    frame_height: u32,
)
    requires
        info.visible,
        info.shape == Some(CursorShape::Color { width, height }) || info.shape == Some(
            CursorShape::MaskedColor { width, height },
        ),
        width < 0x4000_0000,
        reads_as(info.hotspot.0, hotspot_x),
        reads_as(info.hotspot.1, hotspot_y),
        -0x8000_0000 <= info.position.0 - hotspot_x < 0x8000_0000,
        -0x8000_0000 <= info.position.1 - hotspot_y < 0x8000_0000,
    ensures
        info.fits(),
        plan_for(info, frame_width, frame_height) matches CursorPlan::Draw { texture, region }
            && drawn_at(
            info.position.0 - hotspot_x,
            info.position.1 - hotspot_y,
            width,
            height,
            frame_width,
            frame_height,
            texture,
            region,
        ),
{
}

/// In a run the size that answers `DescribePooled` is the frame that the cursor is drawn on. A
/// color cursor leads to its texture, and from there to the copy of the part that lies on that
/// frame, if any does.
#[verifier::spinoff_prover]
pub proof fn law_run_draws_the_cursor(
    s: CaptureModel,
    info: CursorInfo,
    width: u32,
    height: u32,
    hotspot_x: int,
    hotspot_y: int,
    frame_width: u32,
    frame_height: u32,
)
    requires
        s.phase == Phase::Frame(FrameStep::DescribeTarget { cursor: info }),
        info.visible,
        info.shape == Some(CursorShape::Color { width, height }) || info.shape == Some(
            CursorShape::MaskedColor { width, height },
        ),
        width < 0x4000_0000,
        reads_as(info.hotspot.0, hotspot_x),
        reads_as(info.hotspot.1, hotspot_y),
        -0x8000_0000 <= info.position.0 - hotspot_x < 0x8000_0000,
        -0x8000_0000 <= info.position.1 - hotspot_y < 0x8000_0000,
    ensures
        ({
            let t = s.next(Event::Size { width: frame_width, height: frame_height });
            &&& s.accepts(Event::Size { width: frame_width, height: frame_height })
            &&& t == (CaptureModel { phase: t.phase, ..s })
            &&& t.phase matches Phase::Frame(FrameStep::CreateCursor { texture, region })
            &&& t.action() == Action::CreateCursorTexture(texture)
            &&& drawn_at(
                info.position.0 - hotspot_x,
                info.position.1 - hotspot_y,
                width,
                height,
                frame_width,
                frame_height,
                texture,
                region,
            )
            &&& match region {
                Some(r) => t.next(Event::Completed(Ok(()))).action() == Action::CopyCursor(r),
                None => t.next(Event::Completed(Ok(()))).action() == Action::CopyPooledToStaging,
            }
        }),
{
    law_where_a_cursor_is_drawn(
        info,
        width,
        height,
        hotspot_x,
        hotspot_y,
        frame_width,
        frame_height,
    );
    let plan = plan_for(info, frame_width, frame_height);
    let t = s.next(Event::Size { width: frame_width, height: frame_height });
    assert(t == (CaptureModel {
        phase: Phase::Frame(
            FrameStep::CreateCursor { texture: plan->texture, region: plan->region },
        ),
        ..s
    }));
}

/// A cursor that lies wholly on the frame is copied whole, to where it points less its hotspot.
#[verifier::spinoff_prover]
pub proof fn law_run_draws_a_whole_cursor(
    s: CaptureModel,
    info: CursorInfo,
    width: u32,
    height: u32,
    frame_width: u32,
    frame_height: u32,
)
    requires
        s.phase == Phase::Frame(FrameStep::DescribeTarget { cursor: info }),
        info.visible,
        info.shape == Some(CursorShape::Color { width, height }) || info.shape == Some(
            CursorShape::MaskedColor { width, height },
        ),
        0 < width < 0x4000_0000,
        height > 0,
        info.hotspot.0 < 0x8000_0000,
        info.hotspot.1 < 0x8000_0000,
        0 <= info.position.0 - info.hotspot.0,
        info.position.0 - info.hotspot.0 + width <= frame_width < 0x8000_0000,
        0 <= info.position.1 - info.hotspot.1,
        info.position.1 - info.hotspot.1 + height <= frame_height < 0x8000_0000,
    ensures
        ({
            let t = s.next(Event::Size { width: frame_width, height: frame_height });
            &&& t.action() is CreateCursorTexture
            &&& t.next(Event::Completed(Ok(()))).action() matches Action::CopyCursor(r)
            &&& r.dest_x == info.position.0 - info.hotspot.0
            &&& r.dest_y == info.position.1 - info.hotspot.1
            &&& r.right == width
            &&& r.bottom == height
        }),
{
    law_run_draws_the_cursor(
        s,
        info,
        width,
        height,
        info.hotspot.0 as int,
        info.hotspot.1 as int,
        frame_width,
        frame_height,
    );
}

/// A monochrome cursor is passed over: the frame goes on without it.
#[verifier::spinoff_prover]
pub proof fn law_run_skips_monochrome(s: CaptureModel, info: CursorInfo, width: u32, height: u32)
    requires
        s.phase == Phase::Frame(FrameStep::DescribeTarget { cursor: info }),
        info.shape is Some,
        info.shape->Some_0 is Monochrome,
    ensures
        s.next(Event::Size { width, height }) == (CaptureModel {
            phase: Phase::Frame(FrameStep::CopyPooled),
            ..s
        }),
{
}

/// A copy of the cursor comes right after its texture.
#[verifier::spinoff_prover]
proof fn lemma_step_to_copy(s: CaptureModel, event: Event, region: CopyRegion)
    requires
        s.accepts(event),
        s.next(event).action() == Action::CopyCursor(region),
    ensures
        s.phase is Frame,
        s.phase->Frame_0 is CreateCursor,
        s.phase->Frame_0->CreateCursor_region == Some(region),
{
}

/// The texture of the cursor comes right after the size of the frame, and what is to be copied
/// fits that size.
#[verifier::spinoff_prover]
proof fn lemma_step_to_texture(s: CaptureModel, event: Event, region: CopyRegion)
    requires
        s.accepts(event),
        s.next(event).phase is Frame,
        s.next(event).phase->Frame_0 is CreateCursor,
        s.next(event).phase->Frame_0->CreateCursor_region == Some(region),
    ensures
        s.action() == Action::DescribePooled,
        event matches Event::Size { width, height } && {
            &&& region.dest_x + region.right <= width
            &&& region.dest_y + region.bottom <= height
        },
{
}

/// Every copy of a cursor in a run stays within the frame whose size was read for it, two events
/// before.
#[verifier::spinoff_prover]
pub proof fn law_cursor_copies_stay_on_the_frame(
    start: CaptureModel,
    events: Seq<Event>,
    region: CopyRegion,
)
    requires
        events.len() >= 2,
        runs(start, events),
        run(start, events).action() == Action::CopyCursor(region),
    ensures
        events[events.len() - 2] matches Event::Size { width, height } && {
            &&& region.dest_x + region.right <= width
            &&& region.dest_y + region.bottom <= height
        },
        run(start, events.drop_last().drop_last()).action() == Action::DescribePooled,
{
    let one = events.drop_last();
    let two = one.drop_last();
    lemma_step_to_copy(run(start, one), events.last(), region);
    assert(runs(start, one));
    lemma_step_to_texture(run(start, two), one.last(), region);
    assert(one.last() == events[events.len() - 2]);
}

} // verus!
