use vstd::prelude::*;

verus! {

/// What one axis of a scroll indicator shows after an update.
#[derive(Clone, Copy, Debug, PartialEq, Eq, Structural)]
pub enum AxisOutcome {
    /// The content has no extent on this axis yet: nothing is written.
    Unmeasured,
    /// The content fits: the scroll bar is collapsed.
    Collapsed,
    /// The content overflows: the thumb has this size and position.
    Shown { size: u32, position: i32 },
}

/// `v * num / den`, rounded toward zero.
pub open spec fn scale(v: int, num: int, den: int) -> int {
    if v >= 0 {
        v * num / den
    } else {
        -((-v) * num / den)
    }
}

/// The length of the track that the thumb runs in.
pub open spec fn track_extent(own: int, pad_start: int, pad_end: int, margin_end: int) -> int {
    own - pad_start - pad_end - margin_end
}

/// The thumb's length: the track scaled by the visible fraction, never under the minimum.
pub open spec fn thumb_size(
    own: int,
    content: int,
    pad_start: int,
    pad_end: int,
    margin_end: int,
    min_size: int,
) -> int {
    let t = scale(track_extent(own, pad_start, pad_end, margin_end), own, content);
    if t >= min_size {
        t
    } else {
        min_size
    }
}

/// The thumb's position: the scroll offset scaled by the visible fraction, negated.
pub open spec fn thumb_position(offset: int, own: int, content: int) -> int {
    -scale(offset, own, content)
}

/// What one axis shows, from the own extent, the content extent, the padding along
/// the axis, the scroll bar's end margin and minimum size, and the scroll offset.
pub open spec fn axis_outcome(
    own: u32,
    content: u32,
    pad_start: u32,
    pad_end: u32,
    margin_end: u32,
    min_size: u32,
    offset: i32,
) -> AxisOutcome {
    if content == 0 {
        AxisOutcome::Unmeasured
    } else if own >= content {
        AxisOutcome::Collapsed
    } else {
        AxisOutcome::Shown {
            size: thumb_size(
                own as int,
                content as int,
                pad_start as int,
                pad_end as int,
                margin_end as int,
                min_size as int,
            ) as u32,
            position: thumb_position(offset as int, own as int, content as int) as i32,
        }
    }
}

proof fn lemma_scale_bounded(m: int, num: int, den: int)
    requires
        m >= 0,
        0 <= num < den,
    ensures
        0 <= m * num / den <= m,
        m > 0 ==> m * num / den < m,
        m * num <= m * den,
        m <= 0x4_0000_0000 && den <= 0x1_0000_0000 ==> m * num <= 0x4_0000_0000 * 0x1_0000_0000,
{
    if m <= 0x4_0000_0000 && den <= 0x1_0000_0000 {
        assert(m * num <= 0x4_0000_0000 * 0x1_0000_0000) by (nonlinear_arith)
            requires
                0 <= m <= 0x4_0000_0000,
                0 <= num < den <= 0x1_0000_0000,
        ;
    }
    assert(0 <= m * num) by (nonlinear_arith)
        requires
            m >= 0,
            num >= 0,
    ;
    assert(m * num <= m * den) by (nonlinear_arith)
        requires
            m >= 0,
            num < den,
    ;
    assert(m > 0 ==> m * num < m * den) by (nonlinear_arith)
        requires
            m >= 0,
            num < den,
    ;
    assert(m * den / den == m) by (nonlinear_arith)
        requires
            den > 0,
    ;
    vstd::arithmetic::div_mod::lemma_div_is_ordered(m * num, m * den, den);
    vstd::arithmetic::div_mod::lemma_div_pos_is_pos(m * num, den);
    if m > 0 {
        let q = m * num / den;
        vstd::arithmetic::div_mod::lemma_fundamental_div_mod(m * num, den);
        assert(q < m) by (nonlinear_arith)
            requires
                den * q + (m * num) % den == m * num,
                (m * num) % den >= 0,
                m * num < m * den,
                den > 0,
        ;
    }
}

/// Computes what one axis of a scroll indicator shows.
pub fn compute_axis(
    own: u32,
    content: u32,
    pad_start: u32,
    pad_end: u32,
    margin_end: u32,
    min_size: u32,
    offset: i32,
) -> (r: AxisOutcome)
    ensures
        r == axis_outcome(own, content, pad_start, pad_end, margin_end, min_size, offset),
        content > 0 && own >= content ==> r == AxisOutcome::Collapsed,
        content > 0 && own < content ==> (r matches AxisOutcome::Shown { size, position }
            && size as int == thumb_size(
                own as int,
                content as int,
                pad_start as int,
                pad_end as int,
                margin_end as int,
                min_size as int,
            ) && position as int == thumb_position(offset as int, own as int, content as int)),
{
    if content == 0 {
        return AxisOutcome::Unmeasured;
    }
    if own >= content {
        return AxisOutcome::Collapsed;
    }
    let track: i64 = own as i64 - pad_start as i64 - pad_end as i64 - margin_end as i64;
    let scaled_track: i64 = if track >= 0 {
        proof {
            lemma_scale_bounded(track as int, own as int, content as int);
        }
        ((track as u128 * own as u128) / content as u128) as i64
    } else {
        proof {
            lemma_scale_bounded(-(track as int), own as int, content as int);
        }
        -(((((-track) as u128) * own as u128) / content as u128) as i64)
    };
    let size: u32 = if scaled_track >= min_size as i64 {
        scaled_track as u32
    } else {
        min_size
    };
    let magnitude: u64 = if offset >= 0 {
        offset as u64
    } else {
        (-(offset as i64)) as u64
    };
    proof {
        lemma_scale_bounded(magnitude as int, own as int, content as int);
    }
    let scaled_offset: u64 = ((magnitude as u128 * own as u128) / content as u128) as u64;
    let position: i32 = if offset >= 0 {
        -(scaled_offset as i64) as i32
    } else {
        scaled_offset as i32
    };
    AxisOutcome::Shown { size, position }
}

/// The thumb's size and position fit their types whenever the content overflows.
proof fn lemma_shown_in_range(
    own: u32,
    content: u32,
    pad_start: u32,
    pad_end: u32,
    margin_end: u32,
    min_size: u32,
    offset: i32,
)
    requires
        own < content,
    ensures
        min_size <= thumb_size(
            own as int,
            content as int,
            pad_start as int,
            pad_end as int,
            margin_end as int,
            min_size as int,
        ) <= u32::MAX,
        i32::MIN <= thumb_position(offset as int, own as int, content as int) <= i32::MAX,
{
    let track = track_extent(own as int, pad_start as int, pad_end as int, margin_end as int);
    if track >= 0 {
        lemma_scale_bounded(track, own as int, content as int);
    } else {
        lemma_scale_bounded(-track, own as int, content as int);
    }
    if offset >= 0 {
        lemma_scale_bounded(offset as int, own as int, content as int);
    } else {
        lemma_scale_bounded(-(offset as int), own as int, content as int);
    }
}

/// For content with a positive extent, the scroll bar collapses exactly when the
/// visible fraction `own / content` is at least one, and is shown otherwise.
pub proof fn lemma_collapsed_iff_content_fits(
    own: u32,
    content: u32,
    pad_start: u32,
    pad_end: u32,
    margin_end: u32,
    min_size: u32,
    offset: i32,
)
    requires
        content > 0,
    ensures
        (axis_outcome(own, content, pad_start, pad_end, margin_end, min_size, offset)
            == AxisOutcome::Collapsed) == (own >= content),
        axis_outcome(own, content, pad_start, pad_end, margin_end, min_size, offset) is Shown
            == (own < content),
{
}

/// A shown thumb is never shorter than the scroll bar's minimum: its size is the
/// larger of the scaled track and that minimum.
pub proof fn lemma_thumb_at_least_minimum(
    own: u32,
    content: u32,
    pad_start: u32,
    pad_end: u32,
    margin_end: u32,
    min_size: u32,
    offset: i32,
)
    requires
        0 < content,
        own < content,
    ensures
        axis_outcome(own, content, pad_start, pad_end, margin_end, min_size, offset) matches
            AxisOutcome::Shown { size, position: _ } && size >= min_size && size as int == (if scale(
            track_extent(own as int, pad_start as int, pad_end as int, margin_end as int),
            own as int,
            content as int,
        ) >= min_size {
            scale(
                track_extent(own as int, pad_start as int, pad_end as int, margin_end as int),
                own as int,
                content as int,
            )
        } else {
            min_size as int
        }),
{
    lemma_shown_in_range(own, content, pad_start, pad_end, margin_end, min_size, offset);
}

/// A shown thumb sits at the scroll offset scaled by the visible fraction,
/// negated; with no offset it sits at zero.
pub proof fn lemma_thumb_position_scales_offset(
    own: u32,
    content: u32,
    pad_start: u32,
    pad_end: u32,
    margin_end: u32,
    min_size: u32,
    offset: i32,
)
    requires
        0 < content,
        own < content,
    ensures
        axis_outcome(own, content, pad_start, pad_end, margin_end, min_size, offset) matches
            AxisOutcome::Shown { size: _, position } && position as int == -scale(
            offset as int,
            own as int,
            content as int,
        ),
        offset == 0 ==> (axis_outcome(own, content, pad_start, pad_end, margin_end, min_size, offset)
            matches AxisOutcome::Shown { size: _, position } && position == 0),
{
    lemma_shown_in_range(own, content, pad_start, pad_end, margin_end, min_size, offset);
    if offset == 0 {
        assert(0 * (own as int) == 0);
    }
}

} // verus!
