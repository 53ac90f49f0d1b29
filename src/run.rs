//! Whole runs of the state machine, and what holds of every one of them.
use vstd::prelude::*;
use crate::authorized_keys::{contains, key_block};
use crate::error::ProvisionError;
use crate::key::key_of;
use crate::session::{next, ActionView, EventView, Outcome, ProvisionerView, Stage};

verus! {

/// The state a run starts in.
pub open spec fn initial(user: Option<Seq<char>>, host: Option<Seq<char>>) -> ProvisionerView {
    ProvisionerView { stage: Stage::LoadingKey, key: Seq::empty(), user, host }
}

/// The state after `events`, from `m`, and the actions asked for on the way.
pub open spec fn run(m: ProvisionerView, events: Seq<EventView>) -> (ProvisionerView, Seq<ActionView>)
    decreases events.len(),
{
    if events.len() == 0 {
        (m, Seq::empty())
    } else {
        let (m1, a) = next(m, events[0]);
        let (mf, rest) = run(m1, events.drop_first());
        (mf, seq![a] + rest)
    }
}

/// How many times `actions` asks for the password.
pub open spec fn prompt_count(actions: Seq<ActionView>) -> nat
    decreases actions.len(),
{
    if actions.len() == 0 {
        0
    } else {
        (if actions[0] is PromptPassword { 1nat } else { 0nat }) + prompt_count(actions.drop_first())
    }
}

/// A run has ended, and stays as it is.
pub open spec fn is_terminal(stage: Stage) -> bool {
    stage is Finished || stage is Failed
}

/// Nothing can have been written to the remote file yet at this stage.
pub open spec fn before_append(stage: Stage) -> bool {
    match stage {
        Stage::LoadingKey | Stage::Connecting | Stage::Handshaking | Stage::AgentAuth
        | Stage::Prompting | Stage::PasswordAuth | Stage::Verifying | Stage::SettingUp
        | Stage::Reading => true,
        _ => false,
    }
}

/// How many password prompts a run may still ask for from this stage.
pub open spec fn prompts_left(stage: Stage) -> nat {
    match stage {
        Stage::LoadingKey | Stage::Connecting | Stage::Handshaking | Stage::AgentAuth => 1,
        _ => 0,
    }
}

proof fn lemma_run_first(m: ProvisionerView, events: Seq<EventView>)
    requires
        events.len() > 0,
    ensures
        run(m, events).0 == run(next(m, events[0]).0, events.drop_first()).0,
        run(m, events).1 == seq![next(m, events[0]).1] + run(next(m, events[0]).0, events.drop_first()).1,
        run(m, events).1.len() == run(next(m, events[0]).0, events.drop_first()).1.len() + 1,
{
}

/// Once a run has ended, every later event leaves it as it is and asks for
/// nothing but to halt.
pub proof fn lemma_ended_run_stays(m: ProvisionerView, events: Seq<EventView>)
    requires
        is_terminal(m.stage),
    ensures
        run(m, events).0 == m,
        run(m, events).1.len() == events.len(),
        forall|i: int| 0 <= i < events.len() ==> #[trigger] run(m, events).1[i] is Halt,
    decreases events.len(),
{
    if events.len() > 0 {
        lemma_ended_run_stays(m, events.drop_first());
        lemma_run_first(m, events);
        let tail = run(m, events.drop_first()).1;
        assert forall|i: int| 0 <= i < events.len() implies #[trigger] run(m, events).1[i] is Halt by {
            if i > 0 {
                assert(run(m, events).1[i] == tail[i - 1]);
            }
        }
    }
}

/// A run whose key file does not exist fails with `KeyNotFound` and never
/// opens a connection, nor does anything else after reporting the failure.
pub proof fn lemma_missing_key_never_connects(
    user: Option<Seq<char>>,
    host: Option<Seq<char>>,
    later: Seq<EventView>,
)
    ensures
        ({
            let events = seq![EventView::KeyFile(None)] + later;
            let (mf, actions) = run(initial(user, host), events);
            &&& mf.stage == Stage::Failed(ProvisionError::KeyNotFound)
            &&& actions[0] == ActionView::Abort(ProvisionError::KeyNotFound)
            &&& forall|i: int| 0 <= i < actions.len() ==> !(#[trigger] actions[i] is Connect)
        }),
{
    let events = seq![EventView::KeyFile(None)] + later;
    let m0 = initial(user, host);
    lemma_run_first(m0, events);
    assert(events.drop_first() =~= later);
    let m1 = next(m0, events[0]).0;
    lemma_ended_run_stays(m1, later);
    let actions = run(m0, events).1;
    assert forall|i: int| 0 <= i < actions.len() implies !(#[trigger] actions[i] is Connect) by {
        if i > 0 {
            assert(actions[i] == run(m1, later).1[i - 1]);
        }
    }
}

proof fn lemma_prompt_count_cons(a: ActionView, rest: Seq<ActionView>)
    ensures
        prompt_count(seq![a] + rest) == (if a is PromptPassword { 1nat } else { 0nat }) + prompt_count(rest),
{
    assert((seq![a] + rest).drop_first() =~= rest);
}

proof fn lemma_prompts_bounded(m: ProvisionerView, events: Seq<EventView>)
    ensures
        prompt_count(run(m, events).1) <= prompts_left(m.stage),
    decreases events.len(),
{
    if events.len() > 0 {
        let (m1, a) = next(m, events[0]);
        lemma_prompts_bounded(m1, events.drop_first());
        lemma_run_first(m, events);
        lemma_prompt_count_cons(a, run(m1, events.drop_first()).1);
    }
}

/// A run asks for the password at most once, whatever comes of its actions.
pub proof fn lemma_password_asked_at_most_once(
    user: Option<Seq<char>>,
    host: Option<Seq<char>>,
    events: Seq<EventView>,
)
    ensures
        prompt_count(run(initial(user, host), events).1) <= 1,
{
    lemma_prompts_bounded(initial(user, host), events);
}

/// The events of a run in which the agent is refused and the typed password
/// is accepted.
pub open spec fn password_run(contents: Seq<char>, existing: Seq<u8>) -> Seq<EventView> {
    seq![
        EventView::KeyFile(Some(contents)),
        EventView::Connected,
        EventView::HandshakeDone,
        EventView::AgentRejected,
        EventView::PasswordEntered,
        EventView::PasswordAccepted,
        EventView::AuthStatus(true),
        EventView::SetupDone,
        EventView::Content(existing),
        EventView::Written,
    ]
}

/// When the agent is refused but the password is accepted, the run succeeds,
/// asks for the password exactly once, and appends the key's block exactly
/// when the key was not in the remote file.
pub proof fn lemma_password_fallback_succeeds(
    user: Seq<char>,
    host: Seq<char>,
    contents: Seq<char>,
    existing: Seq<u8>,
)
    requires
        key_of(contents).len() > 0,
    ensures
        ({
            let (mf, actions) = run(initial(Some(user), Some(host)), password_run(contents, existing));
            &&& mf.stage is Finished
            &&& prompt_count(actions) == 1
            &&& contains(existing, key_of(contents)) ==> mf.stage == Stage::Finished(
                Outcome::AlreadyPresent,
            )
            &&& !contains(existing, key_of(contents)) ==> mf.stage == Stage::Finished(
                Outcome::KeyAdded,
            ) && actions[8] == ActionView::AppendKeys(key_block(key_of(contents)))
        }),
{
    reveal_with_fuel(run, 11);
    reveal_with_fuel(prompt_count, 11);
    let events = password_run(contents, existing);
    let r = run(initial(Some(user), Some(host)), events);
    assert(r.1.len() == 10);
}

proof fn lemma_auth_failure_before_append(m: ProvisionerView, events: Seq<EventView>)
    requires
        before_append(m.stage) || m.stage == Stage::Failed(ProvisionError::AuthenticationFailed),
        run(m, events).0.stage == Stage::Failed(ProvisionError::AuthenticationFailed),
    ensures
        forall|i: int| 0 <= i < run(m, events).1.len() ==> !(#[trigger] run(m, events).1[i] is AppendKeys),
    decreases events.len(),
{
    if events.len() > 0 {
        let (m1, a) = next(m, events[0]);
        lemma_run_first(m, events);
        if before_append(m1.stage) || m1.stage == Stage::Failed(ProvisionError::AuthenticationFailed) {
            lemma_auth_failure_before_append(m1, events.drop_first());
            let tail = run(m1, events.drop_first()).1;
            assert forall|i: int| 0 <= i < run(m, events).1.len() implies !(#[trigger] run(m, events).1[i] is AppendKeys) by {
                if i > 0 {
                    assert(run(m, events).1[i] == tail[i - 1]);
                }
            }
        } else {
            lemma_no_auth_failure_after_read(m1, events.drop_first());
        }
    }
}

proof fn lemma_no_auth_failure_after_read(m: ProvisionerView, events: Seq<EventView>)
    requires
        !before_append(m.stage),
        m.stage != Stage::Failed(ProvisionError::AuthenticationFailed),
    ensures
        run(m, events).0.stage != Stage::Failed(ProvisionError::AuthenticationFailed),
    decreases events.len(),
{
    if events.len() > 0 {
        lemma_run_first(m, events);
        lemma_no_auth_failure_after_read(next(m, events[0]).0, events.drop_first());
    }
}

/// A run that ends in an authentication failure has never written to the
/// remote file.
pub proof fn lemma_auth_failure_leaves_file_untouched(
    user: Option<Seq<char>>,
    host: Option<Seq<char>>,
    events: Seq<EventView>,
)
    requires
        run(initial(user, host), events).0.stage == Stage::Failed(ProvisionError::AuthenticationFailed),
    ensures
        forall|i: int|
            0 <= i < run(initial(user, host), events).1.len() ==> !(#[trigger] run(
                initial(user, host),
                events,
            ).1[i] is AppendKeys),
{
    lemma_auth_failure_before_append(initial(user, host), events);
}

/// A refused password ends the run with `AuthenticationFailed`, whatever comes
/// after, and nothing is written to the remote file from then on.
pub proof fn lemma_refused_password_is_fatal(m: ProvisionerView, later: Seq<EventView>)
    requires
        m.stage == Stage::PasswordAuth,
    ensures
        ({
            let (mf, actions) = run(m, seq![EventView::PasswordRejected] + later);
            &&& mf.stage == Stage::Failed(ProvisionError::AuthenticationFailed)
            &&& actions[0] == ActionView::Abort(ProvisionError::AuthenticationFailed)
            &&& forall|i: int| 0 <= i < actions.len() ==> !(#[trigger] actions[i] is AppendKeys)
        }),
{
    let events = seq![EventView::PasswordRejected] + later;
    lemma_run_first(m, events);
    assert(events.drop_first() =~= later);
    let m1 = next(m, events[0]).0;
    lemma_ended_run_stays(m1, later);
    let actions = run(m, events).1;
    assert forall|i: int| 0 <= i < actions.len() implies !(#[trigger] actions[i] is AppendKeys) by {
        if i > 0 {
            assert(actions[i] == run(m1, later).1[i - 1]);
        }
    }
}

} // verus!
