use vstd::prelude::*;

use crate::controller::{step_state, AppView, InputEvent};

verus! {

/// The event one typed character produces.
pub open spec fn char_event(c: char) -> InputEvent {
    InputEvent::Char(c)
}

/// The events a run of typed characters produces.
pub open spec fn char_events(cs: Seq<char>) -> Seq<InputEvent>
    decreases cs.len(),
{
    if cs.len() == 0 {
        Seq::empty()
    } else {
        char_events(cs.subrange(1, cs.len() as int)).insert(0, char_event(cs[0]))
    }
}

/// A run of typed characters produces exactly one event per character.
pub proof fn lemma_char_events_len(cs: Seq<char>)
    ensures
        char_events(cs).len() == cs.len(),
    decreases cs.len(),
{
    if cs.len() > 0 {
        lemma_char_events_len(cs.subrange(1, cs.len() as int));
    }
}

/// The state after a whole sequence of input events.
pub open spec fn run_events(s: AppView, evs: Seq<InputEvent>) -> AppView
    decreases evs.len(),
{
    if evs.len() == 0 {
        s
    } else {
        run_events(step_state(s, evs[0]), evs.subrange(1, evs.len() as int))
    }
}

/// Running a sequence of events and then one more is the same as stepping
/// the run's result by that event.
pub proof fn lemma_run_events_snoc(s: AppView, evs: Seq<InputEvent>, e: InputEvent)
    ensures
        run_events(s, evs.push(e)) == step_state(run_events(s, evs), e),
    decreases evs.len(),
{
    let all = evs.push(e);
    if evs.len() == 0 {
        assert(all.len() == 1);
        assert(all[0] == e);
        let tail = all.subrange(1, all.len() as int);
        assert(tail =~= Seq::<InputEvent>::empty());
        assert(run_events(s, all) == run_events(step_state(s, e), tail));
        assert(run_events(step_state(s, e), tail) == step_state(s, e));
        assert(run_events(s, evs) == s);
    } else {
        assert(all[0] == evs[0]);
        let tail = all.subrange(1, all.len() as int);
        let evs_tail = evs.subrange(1, evs.len() as int);
        assert(tail =~= evs_tail.push(e));
        assert(run_events(s, all) == run_events(step_state(s, evs[0]), tail));
        lemma_run_events_snoc(step_state(s, evs[0]), evs_tail, e);
        assert(run_events(s, evs) == run_events(step_state(s, evs[0]), evs_tail));
    }
}

/// While the URL field has focus, a run of character events appends exactly
/// those characters, in order, to the URL buffer, and the focus stays on the
/// URL field.
pub proof fn lemma_url_edit_appends(s: AppView, cs: Seq<char>)
    requires
        s.input_mode is EditingUrl,
    ensures
        run_events(s, char_events(cs)).url == s.url + cs,
        run_events(s, char_events(cs)).input_mode is EditingUrl,
    decreases cs.len(),
{
    let evs = char_events(cs);
    lemma_char_events_len(cs);
    if cs.len() == 0 {
        assert(run_events(s, evs) == s);
        assert(s.url + cs =~= s.url);
    } else {
        let rest = cs.subrange(1, cs.len() as int);
        assert(evs == char_events(rest).insert(0, char_event(cs[0])));
        assert(evs[0] == char_event(cs[0]));
        let s1 = step_state(s, evs[0]);
        assert(s1.url == s.url.push(cs[0]));
        let evs_tail = evs.subrange(1, evs.len() as int);
        assert(evs_tail =~= char_events(rest));
        assert(run_events(s, evs) == run_events(s1, evs_tail));
        lemma_url_edit_appends(s1, rest);
        assert(s.url.push(cs[0]) + rest =~= s.url + cs);
    }
}

/// A delete-backward in the URL field removes exactly the last character.
pub proof fn lemma_url_backspace(s: AppView)
    requires
        s.input_mode is EditingUrl,
        s.url.len() > 0,
    ensures
        step_state(s, InputEvent::Backspace).url == s.url.drop_last(),
{
}

/// Typing characters into the focused URL field and then deleting backward
/// once leaves the buffer extended by all but the last typed character.
pub proof fn lemma_url_edit_then_backspace(s: AppView, cs: Seq<char>)
    requires
        s.input_mode is EditingUrl,
        cs.len() > 0,
    ensures
        run_events(s, char_events(cs).push(InputEvent::Backspace)).url == s.url + cs.drop_last(),
{
    lemma_run_events_snoc(s, char_events(cs), InputEvent::Backspace);
    lemma_url_edit_appends(s, cs);
    lemma_url_backspace(run_events(s, char_events(cs)));
    assert((s.url + cs).drop_last() =~= s.url + cs.drop_last());
}

/// Cycling the method forward four times returns to the starting method
/// index, from any starting index.
pub proof fn lemma_method_cycle_roundtrip(s: AppView)
    requires
        s.input_mode is Normal,
        0 <= s.method_index < 4,
    ensures
        step_state(
            step_state(
                step_state(step_state(s, InputEvent::Char('m')), InputEvent::Char('m')),
                InputEvent::Char('m'),
            ),
            InputEvent::Char('m'),
        ).method_index == s.method_index,
{
}

/// Cycling the method backward from the first index wraps to the last.
pub proof fn lemma_method_cycle_back_wraps(s: AppView)
    requires
        s.input_mode is Normal,
        s.method_index == 0,
    ensures
        step_state(s, InputEvent::Char('M')).method_index == 3,
{
}

/// The confirm key in the headers field appends a literal newline to the
/// buffer and keeps the focus on the headers field.
pub proof fn lemma_headers_confirm_appends_newline(s: AppView)
    requires
        s.input_mode is EditingHeaders,
    ensures
        step_state(s, InputEvent::Enter).headers_input == s.headers_input.push('\n'),
        step_state(s, InputEvent::Enter).input_mode is EditingHeaders,
{
}

/// The confirm key in the URL field leaves the buffer alone and returns the
/// focus to normal.
pub proof fn lemma_url_confirm_returns_to_normal(s: AppView)
    requires
        s.input_mode is EditingUrl,
    ensures
        step_state(s, InputEvent::Enter).input_mode is Normal,
        step_state(s, InputEvent::Enter).url == s.url,
{
}

} // verus!
