//! Properties of whole installs, stated over the contracts of the session.
use vstd::prelude::*;
use crate::mod_string::{splits_as, joined};
use crate::entries::{select, conflict_pred, installs_name, is_plugin_name, plugin_pred, views};
use crate::session::{Session, Action, Event, InstallError, step_post, transition};

verus! {

/// An element is selected exactly when it occurs and satisfies the predicate.
pub proof fn lemma_select_contains(s: Seq<Seq<char>>, p: spec_fn(Seq<char>) -> bool, x: Seq<char>)
    ensures
        select(s, p).contains(x) <==> (s.contains(x) && p(x)),
    decreases s.len(),
{
    if s.len() > 0 {
        let d = s.drop_last();
        lemma_select_contains(d, p, x);
        assert(s =~= d.push(s.last()));
        if d.contains(x) {
            let k = choose|k: int| 0 <= k < d.len() && d[k] == x;
            assert(s[k] == x);
        }
        if s.contains(x) && x != s.last() {
            let k = choose|k: int| 0 <= k < s.len() && s[k] == x;
            assert(d[k] == x);
        }
        if p(s.last()) {
            let q = select(d, p);
            assert(q.push(s.last())[q.len() as int] == s.last());
            if q.contains(x) {
                let k = choose|k: int| 0 <= k < q.len() && q[k] == x;
                assert(q.push(s.last())[k] == x);
            }
            if q.push(s.last()).contains(x) && x != s.last() {
                let k = choose|k: int| 0 <= k < q.len() + 1 && q.push(s.last())[k] == x;
                assert(q[k] == x);
            }
        }
        assert(s[s.len() - 1] == s.last());
    }
}

/// An install replaces every installed folder of a package with the same
/// name, whatever its author and version: the folder is among those the
/// session removes. A folder that holds no package of that name is kept.
pub proof fn lemma_same_name_replaced(
    dirs: Seq<Seq<char>>,
    name: Seq<char>,
    author: Seq<char>,
    version: Seq<char>,
    other: Seq<char>,
)
    requires
        splits_as(joined(author, name, version), author, name, version),
    ensures
        dirs.contains(joined(author, name, version)) ==> select(dirs, conflict_pred(name)).contains(
            joined(author, name, version),
        ),
        !installs_name(other, name) ==> !select(dirs, conflict_pred(name)).contains(other),
{
    lemma_select_contains(dirs, conflict_pred(name), joined(author, name, version));
    lemma_select_contains(dirs, conflict_pred(name), other);
}

/// Number of staging teardowns among a run's actions.
pub open spec fn teardowns(acts: Seq<Action>) -> nat
    decreases acts.len(),
{
    if acts.len() == 0 {
        0
    } else {
        teardowns(acts.drop_last()) + if acts.last() is Teardown {
            1nat
        } else {
            0nat
        }
    }
}

/// Over any run of steps from a session that has staged nothing, the staging
/// folder is torn down at most once, exactly once if it was created, and a
/// run that finished has torn down whatever it staged.
pub proof fn lemma_teardown_once(states: Seq<Session>, acts: Seq<Action>)
    requires
        states.len() == acts.len() + 1,
        !states[0].staged,
        !states[0].torn_down,
        forall|i: int| 0 <= i < acts.len() ==> #[trigger] step_post(states[i], acts[i], states[i + 1]),
    ensures
        teardowns(acts) == if states.last().torn_down { 1nat } else { 0nat },
        states.last().torn_down ==> states.last().staged,
        acts.len() > 0 && acts.last() is Finish ==> teardowns(acts) == if states.last().staged {
            1nat
        } else {
            0nat
        },
    decreases acts.len(),
{
    if acts.len() > 0 {
        let n = acts.len() - 1;
        let ps = states.drop_last();
        let pa = acts.drop_last();
        assert forall|i: int| 0 <= i < pa.len() implies #[trigger] step_post(ps[i], pa[i], ps[i + 1]) by {
            assert(step_post(states[i], acts[i], states[i + 1]));
        }
        lemma_teardown_once(ps, pa);
        assert(step_post(states[n], acts[n], states[n + 1]));
    }
}

/// A plugin-bearing package with plugins disabled: the step after extraction
/// tears staging down and the install then finishes with `PluginsDisabled`.
pub proof fn lemma_plugins_disabled(
    s: Session,
    any_content: bool,
    listing: Vec<String>,
    k: int,
    a1: Action,
    t1: Session,
    e2: Event,
    a2: Action,
    t2: Session,
)
    requires
        s.phase is Extracting,
        !s.plugins_allowed,
        0 <= k < listing@.len(),
        is_plugin_name(listing@[k]@),
        transition(s, Event::Extracted { any_content, plugin_dir: Some(listing) }, a1, t1),
        transition(t1, e2, a2, t2),
    ensures
        a1 is Teardown,
        a2 == Action::Finish(Err(InstallError::PluginsDisabled)),
        t2.phase is Done,
{
    let f = listing@[k]@;
    assert(views(listing@)[k] == f);
    lemma_select_contains(views(listing@), plugin_pred(), f);
    assert(select(views(listing@), plugin_pred()).contains(f));
}

/// An archive with no content at all fails with `MissingFile`, after the
/// staging folder is torn down.
pub proof fn lemma_empty_archive(s: Session, a1: Action, t1: Session, e2: Event, a2: Action, t2: Session)
    requires
        s.phase is Extracting,
        transition(s, Event::Extracted { any_content: false, plugin_dir: None }, a1, t1),
        transition(t1, e2, a2, t2),
    ensures
        a1 is Teardown,
        a2 == Action::Finish(Err(InstallError::MissingFile)),
{
}

/// A refusal while a decision is awaited tears staging down and ends the
/// install with `UserDenied`; no commit is ever asked for.
pub proof fn lemma_denied(s: Session, a1: Action, t1: Session, e2: Event, a2: Action, t2: Session)
    requires
        s.phase is Consent,
        transition(s, Event::Decision(Some(false)), a1, t1),
        transition(t1, e2, a2, t2),
    ensures
        a1 is Teardown,
        a2 == Action::Finish(Err(InstallError::UserDenied)),
        t2.phase is Done,
{
}

} // verus!
