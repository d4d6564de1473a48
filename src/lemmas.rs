use vstd::prelude::*;

use crate::app::{
    after_key, columns_consistent, effect_of_key, local_echo, with_columns, with_input, with_message,
    AppModel,
    Effect, Key, State,
};
use crate::config::Config;
use crate::message::MessageModel;

verus! {

/// One thing that happens to the interaction state in the main loop.
pub enum Step {
    /// A key press; a message it submits is stamped with the given text.
    Press(Key, Seq<char>),
    /// A message drained from the inbox.
    Incoming(MessageModel),
    /// A tick of the redraw timer.
    Tick,
}

/// The state after `s` happened in `a`.
pub open spec fn after_step(a: AppModel, s: Step, cfg: Config) -> AppModel {
    match s {
        Step::Press(key, timestamp) => after_key(a, key, cfg, timestamp),
        Step::Incoming(m) => with_message(a, m),
        Step::Tick => a,
    }
}

/// The state after the steps `steps` happened in `a`, in order.
pub open spec fn run(a: AppModel, steps: Seq<Step>, cfg: Config) -> AppModel
    decreases steps.len(),
{
    if steps.len() == 0 {
        a
    } else {
        after_step(run(a, steps.drop_last(), cfg), steps.last(), cfg)
    }
}

/// Key presses that type `chars`, one after another.
pub open spec fn typing(chars: Seq<char>) -> Seq<Step>
    decreases chars.len(),
{
    if chars.len() == 0 {
        Seq::empty()
    } else {
        // the cast tells the solver that the element is a valid character
        typing(chars.drop_last()).push(Step::Press(Key::Char(chars.last() as char), Seq::empty()))
    }
}

/// `n` presses of Backspace.
pub open spec fn erasing(n: nat) -> Seq<Step> {
    Seq::new(n, |_i: int| Step::Press(Key::Backspace, Seq::empty()))
}

/// The (mode, key) pairs that the transition table names.
pub open spec fn is_listed(s: State, key: Key) -> bool {
    match s {
        State::Input => key != Key::Other,
        _ => key == Key::Char('i') || key == Key::Char('?') || key == Key::Char('c') || key
            == Key::Esc,
    }
}

/// Running two step sequences one after the other is running their concatenation.
pub proof fn lemma_run_append(a: AppModel, s1: Seq<Step>, s2: Seq<Step>, cfg: Config)
    ensures
        run(a, s1 + s2, cfg) == run(run(a, s1, cfg), s2, cfg),
    decreases s2.len(),
{
    if s2.len() == 0 {
        assert(s1 + s2 =~= s1);
    } else {
        assert((s1 + s2).drop_last() =~= s1 + s2.drop_last());
        lemma_run_append(a, s1, s2.drop_last(), cfg);
    }
}

proof fn lemma_char_cast(c: char)
    ensures
        c as char == c,
{
}

proof fn lemma_typing(a: AppModel, chars: Seq<char>, cfg: Config)
    requires
        a.state == State::Input,
    ensures
        run(a, typing(chars), cfg) == with_input(a, a.input + chars),
    decreases chars.len(),
{
    if chars.len() == 0 {
        assert(a.input + chars =~= a.input);
    } else {
        let init = chars.drop_last();
        assert(typing(chars).drop_last() =~= typing(init));
        lemma_typing(a, init, cfg);
        lemma_char_cast(chars.last());
        assert((a.input + init).push(chars.last()) =~= a.input + chars);
    }
}

proof fn lemma_erasing(a: AppModel, n: nat, cfg: Config)
    requires
        a.state == State::Input,
    ensures
        run(a, erasing(n), cfg) == with_input(
            a,
            a.input.subrange(0, if n <= a.input.len() { a.input.len() - n } else { 0 }),
        ),
    decreases n,
{
    if n == 0 {
        assert(a.input.subrange(0, a.input.len() as int) =~= a.input);
    } else {
        assert(erasing(n).drop_last() =~= erasing((n - 1) as nat));
        lemma_erasing(a, (n - 1) as nat, cfg);
        let k: int = if n - 1 <= a.input.len() { a.input.len() - (n - 1) } else { 0 };
        if k > 0 {
            assert(a.input.subrange(0, k).drop_last() =~= a.input.subrange(0, k - 1));
        }
    }
}

/// In text-entry mode, typing characters and then pressing Backspace `n`
/// times leaves the buffer holding what it held plus the typed characters,
/// less the last `n` of them all; the buffer never shrinks below empty.
pub proof fn lemma_type_then_erase(a: AppModel, chars: Seq<char>, n: nat, cfg: Config)
    requires
        a.state == State::Input,
    ensures
        ({
            let r = run(a, typing(chars) + erasing(n), cfg);
            let total = a.input.len() + chars.len();
            let kept: int = if n <= total { total - n } else { 0 };
            &&& r.state == State::Input
            &&& r.input == (a.input + chars).subrange(0, kept)
            &&& r.input.len() == kept
            &&& r.messages == a.messages
        }),
{
    lemma_run_append(a, typing(chars), erasing(n), cfg);
    lemma_typing(a, chars, cfg);
    lemma_erasing(with_input(a, a.input + chars), n, cfg);
}

/// Enter in text-entry mode puts exactly one new entry in front of a history
/// that is below its bound: the local echo of the buffer's text. The buffer
/// is emptied, the mode stays, and the text goes to the outbound channel.
pub proof fn lemma_submit(a: AppModel, cfg: Config, timestamp: Seq<char>)
    requires
        a.state == State::Input,
        a.messages.len() < a.capacity,
    ensures
        ({
            let r = after_key(a, Key::Enter, cfg, timestamp);
            &&& r.messages.len() == a.messages.len() + 1
            &&& r.messages[0] == local_echo(a.input, cfg, timestamp)
            &&& r.messages[0].content == a.input
            &&& r.messages.subrange(1, r.messages.len() as int) == a.messages
            &&& r.input.len() == 0
            &&& r.state == State::Input
            &&& effect_of_key(a, Key::Enter) == Effect::Send(a.input)
        }),
{
    let r = after_key(a, Key::Enter, cfg, timestamp);
    assert(r.messages.subrange(1, r.messages.len() as int) =~= a.messages);
}

/// Enter in text-entry mode, with a history bound above zero, puts the local
/// echo of the buffer first in the history: the buffer's text, the local
/// username, the local flag and the given timestamp. The older entries follow,
/// as many as the bound leaves room for.
pub proof fn lemma_submit_first(a: AppModel, cfg: Config, timestamp: Seq<char>)
    requires
        a.state == State::Input,
        a.capacity > 0,
    ensures
        ({
            let r = after_key(a, Key::Enter, cfg, timestamp);
            let kept: int = if a.messages.len() < a.capacity {
                a.messages.len() as int
            } else {
                a.capacity - 1
            };
            &&& r.messages.len() == kept + 1
            &&& r.messages[0] == local_echo(a.input, cfg, timestamp)
            &&& r.messages[0].content == a.input
            &&& r.messages[0].author == cfg.username@
            &&& !r.messages[0].is_remote
            &&& r.messages[0].timestamp == timestamp
            &&& r.messages.subrange(1, r.messages.len() as int) == a.messages.subrange(0, kept)
            &&& r.input.len() == 0
            &&& r.state == State::Input
        }),
{
    let r = after_key(a, Key::Enter, cfg, timestamp);
    let kept: int = if a.messages.len() < a.capacity {
        a.messages.len() as int
    } else {
        a.capacity - 1
    };
    assert(r.messages.subrange(1, r.messages.len() as int) =~= a.messages.subrange(0, kept));
}

/// A key that the transition table does not name for the current mode
/// changes nothing and lets the loop go on.
pub proof fn lemma_unlisted_keys_ignored(a: AppModel, key: Key, cfg: Config, timestamp: Seq<char>)
    requires
        !is_listed(a.state, key),
    ensures
        after_key(a, key, cfg, timestamp) == a,
        effect_of_key(a, key) == Effect::Continue,
{
}

/// Only Enter in text-entry mode reads the timestamp: every other transition
/// is the same whatever the clock says.
pub proof fn lemma_transition_ignores_clock(
    a: AppModel,
    key: Key,
    cfg: Config,
    t1: Seq<char>,
    t2: Seq<char>,
)
    requires
        !(a.state == State::Input && key == Key::Enter),
    ensures
        after_key(a, key, cfg, t1) == after_key(a, key, cfg, t2),
{
}

/// Once computed, the column metadata has as many titles as width rules:
/// three where the time column is shown, else two; and no later key press,
/// incoming message or tick changes it.
pub proof fn lemma_columns_after_init(a: AppModel, cfg: Config, time_width: nat, steps: Seq<Step>)
    ensures
        ({
            let r = run(with_columns(a, cfg, time_width), steps, cfg);
            &&& columns_consistent(r)
            &&& r.column_titles.unwrap().len() == r.column_widths.unwrap().len()
            &&& r.column_titles.unwrap().len() == if cfg.date_shown {
                3int
            } else {
                2int
            }
        }),
    decreases steps.len(),
{
    if steps.len() > 0 {
        lemma_columns_after_init(a, cfg, time_width, steps.drop_last());
    }
}

} // verus!
