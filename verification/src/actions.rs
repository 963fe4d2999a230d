//! Contextual actions and their key bindings.  An action set is built from
//! a list checked for conflicting bindings; a key press is resolved to the
//! first action, in canonical order, that is in the set and bound to it.

use vstd::prelude::*;
use crate::inputs::Key;

verus! {

/// Everything the harness can be asked to do from the keyboard.
#[derive(Clone, Copy, Debug, PartialEq, Eq, Structural)]
pub enum Action {
    Quit,
    Run,
    RunFailed,
    RunCurrent,
    RightList,
    LeftList,
    UpList,
    DownList,
    ActivateValgrind,
    RunCheckstyle,
    RunTaskOne,
    RunTaskTwo,
    RunTaskThree,
}

/// The canonical order in which actions are searched.
pub open spec fn action_order() -> Seq<Action> {
    seq![
        Action::Quit,
        Action::Run,
        Action::RunFailed,
        Action::RunCurrent,
        Action::RightList,
        Action::LeftList,
        Action::UpList,
        Action::DownList,
        Action::ActivateValgrind,
        Action::RunCheckstyle,
        Action::RunTaskOne,
        Action::RunTaskTwo,
        Action::RunTaskThree,
    ]
}

/// The keys bound to one action.
pub open spec fn action_keys(a: Action) -> Seq<Key> {
    match a {
        Action::Quit => seq![Key::Ctrl('c'), Key::Char('q')],
        Action::Run => seq![Key::Char('r')],
        Action::RunFailed => seq![Key::Char('f')],
        Action::RunCurrent => seq![Key::Enter],
        Action::RightList => seq![Key::Right],
        Action::LeftList => seq![Key::Left],
        Action::UpList => seq![Key::Up],
        Action::DownList => seq![Key::Down],
        Action::ActivateValgrind => seq![Key::Char('v')],
        Action::RunCheckstyle => seq![Key::Char('c')],
        Action::RunTaskOne => seq![Key::Char('1')],
        Action::RunTaskTwo => seq![Key::Char('2')],
        Action::RunTaskThree => seq![Key::Char('3')],
    }
}

/// The short description of one action, for the help view.
pub open spec fn action_label(a: Action) -> Seq<char> {
    match a {
        Action::Quit => "Quit"@,
        Action::Run => "Run all tests"@,
        Action::RunFailed => "Run failed tests"@,
        Action::RunCurrent => "Run current test"@,
        Action::RightList => "Switch window to the right"@,
        Action::LeftList => "Switch window to the left"@,
        Action::UpList => "Go up the list"@,
        Action::DownList => "Go down the list"@,
        Action::ActivateValgrind => "Turn On/Off valgrind"@,
        Action::RunCheckstyle => "Run checkstyle"@,
        Action::RunTaskOne => "Run task-1"@,
        Action::RunTaskTwo => "Run task-2"@,
        Action::RunTaskThree => "Run task-3"@,
    }
}

impl Action {
    /// All available actions, in canonical order.
    pub fn iterator() -> (r: Vec<Action>)
        ensures
            r@ == action_order(),
    {
        let r = vec![
            Action::Quit,
            Action::Run,
            Action::RunFailed,
            Action::RunCurrent,
            Action::RightList,
            Action::LeftList,
            Action::UpList,
            Action::DownList,
            Action::ActivateValgrind,
            Action::RunCheckstyle,
            Action::RunTaskOne,
            Action::RunTaskTwo,
            Action::RunTaskThree,
        ];
        proof {
            assert(r@ =~= action_order());
        }
        r
    }

    /// The keys bound to this action.
    pub fn keys(&self) -> (r: Vec<Key>)
        ensures
            r@ == action_keys(*self),
    {
        match self {
            Action::Quit => {
                let r = vec![Key::Ctrl('c'), Key::Char('q')];
                proof {
                    assert(r@ =~= action_keys(Action::Quit));
                }
                r
            },
            Action::Run => vec![Key::Char('r')],
            Action::RunFailed => vec![Key::Char('f')],
            Action::RunCurrent => vec![Key::Enter],
            Action::RightList => vec![Key::Right],
            Action::LeftList => vec![Key::Left],
            Action::UpList => vec![Key::Up],
            Action::DownList => vec![Key::Down],
            Action::ActivateValgrind => vec![Key::Char('v')],
            Action::RunCheckstyle => vec![Key::Char('c')],
            Action::RunTaskOne => vec![Key::Char('1')],
            Action::RunTaskTwo => vec![Key::Char('2')],
            Action::RunTaskThree => vec![Key::Char('3')],
        }
    }

    /// A short human-readable description of this action.
    pub fn description(&self) -> (r: String)
        ensures
            r@ == action_label(*self),
    {
        match self {
            Action::Quit => String::from_str("Quit"),
            Action::Run => String::from_str("Run all tests"),
            Action::RunFailed => String::from_str("Run failed tests"),
            Action::RunCurrent => String::from_str("Run current test"),
            Action::RightList => String::from_str("Switch window to the right"),
            Action::LeftList => String::from_str("Switch window to the left"),
            Action::UpList => String::from_str("Go up the list"),
            Action::DownList => String::from_str("Go down the list"),
            Action::ActivateValgrind => String::from_str("Turn On/Off valgrind"),
            Action::RunCheckstyle => String::from_str("Run checkstyle"),
            Action::RunTaskOne => String::from_str("Run task-1"),
            Action::RunTaskTwo => String::from_str("Run task-2"),
            Action::RunTaskThree => String::from_str("Run task-3"),
        }
    }
}

/// Whether a vector of actions holds `a`.
fn contains_action(v: &Vec<Action>, a: Action) -> (r: bool)
    ensures
        r == v@.contains(a),
{
    let mut i: usize = 0;
    while i < v.len()
        invariant
            0 <= i <= v@.len(),
            forall|j: int| 0 <= j < i ==> v@[j] != a,
        decreases v@.len() - i,
    {
        if v[i] == a {
            return true;
        }
        i = i + 1;
    }
    false
}

/// Whether a vector of keys holds `k`.
fn contains_key(v: &Vec<Key>, k: Key) -> (r: bool)
    ensures
        r == v@.contains(k),
{
    let mut i: usize = 0;
    while i < v.len()
        invariant
            0 <= i <= v@.len(),
            forall|j: int| 0 <= j < i ==> v@[j] != k,
        decreases v@.len() - i,
    {
        if v[i] == k {
            return true;
        }
        i = i + 1;
    }
    false
}

/// Whether two actions have a key in common.
pub open spec fn share_key(a: Action, b: Action) -> bool {
    exists|m: int, n: int|
        0 <= m < action_keys(a).len() && 0 <= n < action_keys(b).len() && action_keys(a)[m]
            == action_keys(b)[n]
}

/// Whether no two list positions hold actions with a key in common.
pub open spec fn conflict_free(list: Seq<Action>) -> bool {
    forall|i: int, j: int| 0 <= i < j < list.len() ==> !share_key(list[i], list[j])
}

/// Whether `a` and `b` have a key in common.
fn keys_overlap(a: Action, b: Action) -> (r: bool)
    ensures
        r == share_key(a, b),
{
    let ka = a.keys();
    let kb = b.keys();
    let mut m: usize = 0;
    while m < ka.len()
        invariant
            ka@ == action_keys(a),
            kb@ == action_keys(b),
            0 <= m <= ka@.len(),
            forall|p: int| 0 <= p < m ==> !kb@.contains(ka@[p]),
        decreases ka@.len() - m,
    {
        if contains_key(&kb, ka[m]) {
            proof {
                let n = choose|n: int| 0 <= n < kb@.len() && kb@[n] == ka@[m as int];
                assert(action_keys(a)[m as int] == action_keys(b)[n]);
            }
            return true;
        }
        m = m + 1;
    }
    proof {
        assert(!share_key(a, b)) by {
            if share_key(a, b) {
                let (p, q) = choose|p: int, q: int|
                    0 <= p < action_keys(a).len() && 0 <= q < action_keys(b).len()
                        && action_keys(a)[p] == action_keys(b)[q];
                assert(kb@.contains(ka@[p]));
            }
        }
    }
    false
}

/// The contextual action set: the actions currently available, with their
/// bindings free of conflicts.
#[derive(Debug, Clone)]
pub struct Actions(Vec<Action>);

impl View for Actions {
    type V = Seq<Action>;

    closed spec fn view(&self) -> Seq<Action> {
        self.0@
    }
}

impl Actions {
    /// Builds an action set, rejecting a list in which two positions hold
    /// actions bound to a common key; callers decide what a conflict
    /// aborts.
    pub fn from_vec(actions: Vec<Action>) -> (r: Option<Actions>)
        ensures
            match r {
                Some(x) => conflict_free(actions@) && x@ == actions@,
                None => !conflict_free(actions@),
            },
    {
        let mut i: usize = 0;
        while i < actions.len()
            invariant
                0 <= i <= actions@.len(),
                forall|p: int, q: int|
                    0 <= p < q < actions@.len() && p < i ==> !share_key(
                        actions@[p],
                        actions@[q],
                    ),
            decreases actions@.len() - i,
        {
            let mut j: usize = i + 1;
            while j < actions.len()
                invariant
                    0 <= i < j <= actions@.len() || (i < actions@.len() && j == i + 1),
                    i < actions@.len(),
                    i + 1 <= j <= actions@.len(),
                    forall|p: int, q: int|
                        0 <= p < q < actions@.len() && p < i ==> !share_key(
                            actions@[p],
                            actions@[q],
                        ),
                    forall|q: int| i < q < j ==> !share_key(actions@[i as int], actions@[q]),
                decreases actions@.len() - j,
            {
                if keys_overlap(actions[i], actions[j]) {
                    return None;
                }
                j = j + 1;
            }
            i = i + 1;
        }
        Some(Actions(actions))
    }

    /// Given a key, the first available action bound to it.
    pub fn find(&self, key: Key) -> (r: Option<Action>)
        ensures
            r == find_in(action_order(), self@, key),
    {
        let order = Action::iterator();
        let mut i: usize = 0;
        proof {
            assert(order@.skip(0) =~= order@);
        }
        while i < order.len()
            invariant
                order@ == action_order(),
                0 <= i <= order@.len(),
                find_in(action_order(), self@, key) == find_in(
                    order@.skip(i as int),
                    self@,
                    key,
                ),
            decreases order@.len() - i,
        {
            let a = order[i];
            proof {
                assert(order@.skip(i as int)[0] == a);
                assert(order@.skip(i as int).skip(1) =~= order@.skip(i + 1));
            }
            let keys = a.keys();
            if contains_action(&self.0, a) && contains_key(&keys, key) {
                return Some(a);
            }
            i = i + 1;
        }
        proof {
            assert(order@.skip(i as int) =~= Seq::<Action>::empty());
        }
        None
    }

    /// The available actions, for building a help view.
    pub fn actions(&self) -> (r: &[Action])
        ensures
            r@ == self@,
    {
        self.0.as_slice()
    }
}

/// The full action list binds every key at most once.
pub proof fn lemma_order_conflict_free()
    ensures
        conflict_free(action_order()),
{
    assert forall|i: int, j: int| 0 <= i < j < action_order().len() implies !share_key(
        action_order()[i],
        action_order()[j],
    ) by {
        let a = action_order()[i];
        let b = action_order()[j];
        assert(!share_key(a, b)) by {
            if share_key(a, b) {
                let (m, n) = choose|m: int, n: int|
                    0 <= m < action_keys(a).len() && 0 <= n < action_keys(b).len()
                        && action_keys(a)[m] == action_keys(b)[n];
                assert(action_keys(a)[m] == action_keys(b)[n]);
                assert(false);
            }
        }
    }
}

/// The first action of `order` that is in `avail` and bound to `k`.
pub open spec fn find_in(order: Seq<Action>, avail: Seq<Action>, k: Key) -> Option<Action>
    decreases order.len(),
{
    if order.len() == 0 {
        None
    } else if avail.contains(order[0]) && action_keys(order[0]).contains(k) {
        Some(order[0])
    } else {
        find_in(order.skip(1), avail, k)
    }
}

} // verus!
