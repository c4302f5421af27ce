//! The scene stack of the command-line interface: the scenes a user has
//! entered, how scene events move between them, and the enter and exit hooks
//! each move runs. Scenes are named by ids of any copyable type; the scenes
//! themselves, and the hooks' effects, belong to the interface.
use vstd::prelude::*;

verus! {

/// What a scene asks of the stack.
#[derive(Clone, Copy, Debug)]
pub enum SceneEvent<K> {
    /// No action.
    NoAction,
    /// Pops the current scene from the stack.
    Pop,
    /// Pushes a new scene on to the stack. Useful for modals.
    Push(K),
    /// Clears the stack, exiting each scene on it, and enters the new scene.
    Switch(K),
}

/// A scene hook the interface runs after a move: a scene is entered or
/// exited.
#[derive(Clone, Copy, Debug)]
pub enum SceneHook<K> {
    Enter(K),
    Exit(K),
}

#[derive(Clone, Copy, Debug, PartialEq, Eq, Structural)]
pub enum BuilderError {
    SceneRequired,
}

impl BuilderError {
    /// The message that describes the error.
    pub fn message(&self) -> (m: &'static str)
        ensures
            m@ == "At least one scene is required."@,
    {
        match self {
            BuilderError::SceneRequired => "At least one scene is required.",
        }
    }
}

// - - - - - - - - - - - - - - - - - - - - - - - - - - - - - - - - - -  Builder

/// Collects the ids of the scenes; the first one added is the scene the
/// stack starts with.
pub struct Builder<K> {
    current: Option<K>,
}

impl<K: Copy> Builder<K> {
    /// The scene the stack will start with, if any was added.
    pub closed spec fn first(&self) -> Option<K> {
        self.current
    }

    pub fn new() -> (b: Self)
        ensures
            b.first() is None,
    {
        Self { current: None }
    }

    /// Adds a scene to the builder definition. The first scene added is the
    /// one the stack starts with.
    pub fn add_scene(&mut self, id: K) -> (added: bool)
        ensures
            added,
            final(self).first() == (match old(self).first() {
                Some(first) => Some(first),
                None => Some(id),
            }),
    {
        if self.current.is_none() {
            self.current = Some(id);
        }
        true
    }

    /// Builds the scene stack, which starts with the first scene added, or
    /// fails when no scene was added.
    pub fn build(self) -> (r: Result<SceneStack<K>, BuilderError>)
        ensures
            match self.first() {
                Some(first) => r matches Ok(stack) && stack@ == seq![first],
                None => r == Err::<SceneStack<K>, BuilderError>(BuilderError::SceneRequired),
            },
    {
        match self.current {
            Some(current) => {
                let mut stack: Vec<K> = Vec::new();
                stack.push(current);
                Ok(SceneStack { stack })
            },
            None => Err(BuilderError::SceneRequired),
        }
    }
}

// - - - - - - - - - - - - - - - - - - - - - - - - - - - - - - - - Scene stack

/// The scenes entered and not yet exited, the current one last.
pub struct SceneStack<K> {
    stack: Vec<K>,
}

impl<K> View for SceneStack<K> {
    type V = Seq<K>;

    closed spec fn view(&self) -> Seq<K> {
        self.stack@
    }
}

/// Exit hooks for every scene of `stack`, the current one first.
pub open spec fn exits_in_reverse<K>(stack: Seq<K>) -> Seq<SceneHook<K>> {
    Seq::new(stack.len(), |i: int| SceneHook::Exit(stack[stack.len() - 1 - i]))
}

/// The stack after `event`, and the hooks it runs, in order. `next_known`
/// says whether the scene a push or switch names was added to the interface;
/// an unknown scene, or a pop or push on an empty stack, changes nothing.
pub open spec fn transition<K>(stack: Seq<K>, event: SceneEvent<K>, next_known: bool) -> (
    Seq<K>,
    Seq<SceneHook<K>>,
) {
    match event {
        SceneEvent::NoAction => (stack, Seq::empty()),
        SceneEvent::Pop => if stack.len() > 0 {
            let rest = stack.drop_last();
            if rest.len() > 0 {
                (rest, seq![SceneHook::Exit(stack.last()), SceneHook::Enter(rest.last())])
            } else {
                (rest, seq![SceneHook::Exit(stack.last())])
            }
        } else {
            (stack, Seq::empty())
        },
        SceneEvent::Push(next) => if stack.len() > 0 && next_known {
            (stack.push(next), seq![SceneHook::Exit(stack.last()), SceneHook::Enter(next)])
        } else {
            (stack, Seq::empty())
        },
        SceneEvent::Switch(next) => if next_known {
            (seq![next], exits_in_reverse(stack).push(SceneHook::Enter(next)))
        } else {
            (stack, Seq::empty())
        },
    }
}

/// A push may not name the current scene itself: the interface cannot hold
/// the current and the next scene at once then.
pub open spec fn allowed<K>(stack: Seq<K>, event: SceneEvent<K>) -> bool {
    match event {
        SceneEvent::Push(next) => stack.len() > 0 ==> stack.last() != next,
        _ => true,
    }
}

impl<K: Copy> SceneStack<K> {
    /// Returns the current scene, if the stack holds one.
    pub fn current(&self) -> (c: Option<K>)
        ensures
            c == (if self@.len() > 0 {
                Some(self@.last())
            } else {
                None
            }),
    {
        let n = self.stack.len();
        if n > 0 {
            Some(self.stack[n - 1])
        } else {
            None
        }
    }

    /// Moves the stack on `event` and returns the hooks the move runs.
    pub fn apply(&mut self, event: SceneEvent<K>, next_known: bool) -> (hooks: Vec<SceneHook<K>>)
        requires
            allowed(old(self)@, event),
        ensures
            (final(self)@, hooks@) == transition(old(self)@, event, next_known),
    {
        let mut hooks: Vec<SceneHook<K>> = Vec::new();
        match event {
            SceneEvent::NoAction => {},
            SceneEvent::Pop => {
                let n = self.stack.len();
                if n > 0 {
                    let top = self.stack[n - 1];
                    let ghost before = self.stack@;
                    self.stack.pop();
                    assert(self.stack@ =~= before.drop_last());
                    hooks.push(SceneHook::Exit(top));
                    if n > 1 {
                        hooks.push(SceneHook::Enter(self.stack[n - 2]));
                    }
                }
            },
            SceneEvent::Push(next) => {
                let n = self.stack.len();
                if n > 0 && next_known {
                    let top = self.stack[n - 1];
                    hooks.push(SceneHook::Exit(top));
                    self.stack.push(next);
                    hooks.push(SceneHook::Enter(next));
                }
            },
            SceneEvent::Switch(next) => {
                if next_known {
                    let ghost before = self.stack@;
                    let n = self.stack.len();
                    let mut i = n;
                    while i > 0
                        invariant
                            i <= n,
                            n == before.len(),
                            self.stack@ == before,
                            hooks@ =~= exits_in_reverse(before).take((n - i) as int),
                        decreases i,
                    {
                        i = i - 1;
                        hooks.push(SceneHook::Exit(self.stack[i]));
                    }
                    assert(exits_in_reverse(before).take(n as int) =~= exits_in_reverse(before));
                    self.stack = Vec::new();
                    self.stack.push(next);
                    hooks.push(SceneHook::Enter(next));
                    assert(self.stack@ =~= seq![next]);
                }
            },
        }
        hooks
    }
}

// - - - - - - - - - - - - - - - - - - - - - - - - - - - - - - - - - - -  Laws

/// Pushing a known scene and then popping it gives back the stack before.
pub proof fn law_pop_undoes_push<K>(stack: Seq<K>, next: K)
    requires
        stack.len() > 0,
    ensures
        transition(transition(stack, SceneEvent::Push(next), true).0, SceneEvent::Pop, true).0
            == stack,
{
    assert(stack.push(next).drop_last() =~= stack);
}

/// Switching to a known scene leaves it alone on the stack, after every
/// scene before it was exited, the current one first.
pub proof fn law_switch_leaves_only_next<K>(stack: Seq<K>, next: K)
    ensures
        transition(stack, SceneEvent::Switch(next), true).0 == seq![next],
        transition(stack, SceneEvent::Switch(next), true).1 == exits_in_reverse(stack).push(
            SceneHook::Enter(next),
        ),
{
}

/// Whenever a move runs hooks and leaves a scene on the stack, the last hook
/// enters the scene now on top.
pub proof fn law_top_is_last_entered<K>(stack: Seq<K>, event: SceneEvent<K>, next_known: bool)
    ensures
        ({
            let (after, hooks) = transition(stack, event, next_known);
            hooks.len() > 0 && after.len() > 0 ==> hooks.last() == SceneHook::Enter(after.last())
        }),
{
}

/// A push or switch to a scene that was never added changes nothing and
/// runs no hook.
pub proof fn law_unknown_scene_changes_nothing<K>(stack: Seq<K>, next: K)
    ensures
        transition(stack, SceneEvent::Push(next), false) == (stack, Seq::<SceneHook<K>>::empty()),
        transition(stack, SceneEvent::Switch(next), false) == (stack, Seq::<SceneHook<K>>::empty()),
{
}


/// Pushing a known scene onto a stack that has a current scene exits the
/// current scene, enters the new one and puts it on top of the stack; popping
/// removes the top, exits it and enters the scene below, if any.
pub proof fn law_push_and_pop_move_the_top<K>(stack: Seq<K>, next: K)
    requires
        stack.len() > 0,
    ensures
        transition(stack, SceneEvent::Push(next), true) == (
            stack.push(next),
            seq![SceneHook::Exit(stack.last()), SceneHook::Enter(next)],
        ),
        transition(stack, SceneEvent::Pop, true).0 == stack.drop_last(),
        transition(stack, SceneEvent::Pop, true).1[0] == SceneHook::Exit(stack.last()),
        stack.len() > 1 ==> transition(stack, SceneEvent::Pop, true).1 == seq![
            SceneHook::Exit(stack.last()),
            SceneHook::Enter(stack[stack.len() - 2]),
        ],
        stack.len() == 1 ==> transition(stack, SceneEvent::Pop, true).1 == seq![
            SceneHook::Exit(stack.last()),
        ],
{
}

} // verus!
