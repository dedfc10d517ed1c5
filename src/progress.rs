use vstd::prelude::*;
use vstd::arithmetic::div_mod::{lemma_div_is_ordered, lemma_fundamental_div_mod};

use crate::playback_state::{step, tick_action, Event, MusicTimeBarHandler, TickAction};
use crate::time_format::{format_to_time, time_text};

verus! {

/// Number of cells in the progress bar.
pub const BAR_LEN: usize = 50;

/// Filled cells for `elapsed` of `duration` seconds: `50 * elapsed / duration`
/// rounded to the nearest integer, halves up. A zero duration fills nothing.
pub open spec fn fill_of(elapsed: nat, duration: nat) -> nat {
    if duration == 0 {
        0
    } else {
        (100 * elapsed + duration) / (2 * duration)
    }
}

/// The bar's cells: `filled` cells of '=' then '-' up to the bar's length.
pub open spec fn bar_text(filled: nat) -> Seq<char> {
    Seq::new(BAR_LEN as nat, |k: int| if k < filled { '=' } else { '-' })
}

/// One frame of the progress display for a track.
pub open spec fn frame_text(title: Seq<char>, elapsed: nat, duration: nat) -> Seq<char> {
    "Now playing "@ + title + "\n\n["@ + bar_text(fill_of(elapsed, duration)) + "] "@
        + time_text(elapsed) + "|"@ + time_text(duration)
}

proof fn lemma_fill_bounded(elapsed: nat, duration: nat)
    requires
        elapsed <= duration,
    ensures
        fill_of(elapsed, duration) <= BAR_LEN,
{
    if duration > 0 {
        let num = 100 * elapsed + duration;
        let den = 2 * duration;
        let q = num / den;
        lemma_fundamental_div_mod(num as int, den as int);
        assert(den * q <= num);
        assert(q <= 50) by (nonlinear_arith)
            requires
                den * q <= num,
                num == 100 * elapsed + duration,
                den == 2 * duration,
                elapsed <= duration,
                duration > 0,
        ;
    }
}

/// The filled part of the bar never shrinks while the elapsed time grows
/// towards the duration.
pub proof fn lemma_fill_monotone(e1: nat, e2: nat, duration: nat)
    requires
        duration >= 1,
        e1 <= e2,
        e2 <= duration,
    ensures
        fill_of(e1, duration) <= fill_of(e2, duration),
        fill_of(e2, duration) <= BAR_LEN,
{
    lemma_div_is_ordered(
        (100 * e1 + duration) as int,
        (100 * e2 + duration) as int,
        (2 * duration) as int,
    );
    lemma_fill_bounded(e2, duration);
}

/// For any non-decreasing run of elapsed times starting at zero and bounded by
/// the duration, the rendered fill lengths are non-decreasing too.
pub proof fn lemma_fill_non_decreasing(elapsed: Seq<nat>, duration: nat)
    requires
        duration >= 1,
        elapsed.len() > 0,
        elapsed[0] == 0,
        forall|i: int, j: int| 0 <= i <= j < elapsed.len() ==> elapsed[i] <= elapsed[j],
        forall|i: int| 0 <= i < elapsed.len() ==> elapsed[i] <= duration,
    ensures
        forall|i: int, j: int|
            0 <= i <= j < elapsed.len() ==> fill_of(elapsed[i], duration) <= fill_of(
                elapsed[j],
                duration,
            ),
{
    assert forall|i: int, j: int| 0 <= i <= j < elapsed.len() implies fill_of(
        elapsed[i],
        duration,
    ) <= fill_of(elapsed[j], duration) by {
        lemma_fill_monotone(elapsed[i], elapsed[j], duration);
    }
}

/// Number of filled cells for `elapsed` of `duration` seconds.
pub fn filled_len(elapsed: u64, duration: u64) -> (r: usize)
    requires
        elapsed <= duration,
    ensures
        r == fill_of(elapsed as nat, duration as nat),
        r <= BAR_LEN,
{
    proof { lemma_fill_bounded(elapsed as nat, duration as nat); }
    if duration == 0 {
        0
    } else {
        let num: u128 = 100 * (elapsed as u128) + (duration as u128);
        let den: u128 = 2 * (duration as u128);
        (num / den) as usize
    }
}

/// The bar's text with `filled` cells filled.
pub fn render_bar(filled: usize) -> (r: String)
    requires
        filled <= BAR_LEN,
    ensures
        r@ == bar_text(filled as nat),
{
    let mut out = String::new();
    let mut i: usize = 0;
    while i < BAR_LEN
        invariant
            i <= BAR_LEN,
            out@ =~= Seq::new(i as nat, |k: int| if k < filled { '=' } else { '-' }),
        decreases BAR_LEN - i,
    {
        proof {
            reveal_strlit("=");
            reveal_strlit("-");
        }
        if i < filled {
            out.append("=");
        } else {
            out.append("-");
        }
        i = i + 1;
    }
    out
}

/// The text of one frame: the track's title, the bar, and the elapsed time
/// against the duration.
pub fn render_frame(title: &str, elapsed: u64, duration: u64) -> (r: String)
    requires
        elapsed <= duration,
    ensures
        r@ == frame_text(title@, elapsed as nat, duration as nat),
{
    let bar = render_bar(filled_len(elapsed, duration));
    let mut out = String::new();
    out.append("Now playing ");
    out.append(title);
    out.append("\n\n[");
    out.append(bar.as_str());
    out.append("] ");
    out.append(format_to_time(elapsed).as_str());
    out.append("|");
    out.append(format_to_time(duration).as_str());
    out
}

/// What one poll of the renderer produces.
#[derive(Debug, PartialEq, Eq)]
pub enum RenderStep {
    /// Print this frame, then wait one second.
    Draw(String),
    /// Paused: poll again after a short wait.
    Wait,
    /// Stop rendering.
    Finished,
}

/// One renderer poll, under the state's lock: ticks the shared state and,
/// when a frame is due, builds its text for the track titled `title`.
pub fn render_tick(state: &mut MusicTimeBarHandler, title: &str) -> (r: RenderStep)
    requires
        old(state).well_formed(),
    ensures
        final(state)@ == step(old(state)@, Event::Tick),
        final(state).well_formed(),
        tick_action(old(state)@) is Wait <==> r is Wait,
        tick_action(old(state)@) is Finished <==> r is Finished,
        tick_action(old(state)@) is Frame ==> (r matches RenderStep::Draw(text) && text@
            == frame_text(title@, old(state)@.elapsed, old(state)@.duration)),
{
    let duration = state.get_duration();
    match state.tick() {
        TickAction::Frame(elapsed) => RenderStep::Draw(render_frame(title, elapsed, duration)),
        TickAction::Wait => RenderStep::Wait,
        TickAction::Finished => RenderStep::Finished,
    }
}

} // verus!
