use vstd::prelude::*;

verus! {

/// What the scene answered when a ray was cast into it.
#[derive(Clone, Copy, Debug, PartialEq, Eq, Structural)]
pub enum Event {
    /// No surface was struck: the ray leaves the scene.
    Missed,
    /// A surface was struck and its material absorbed the ray.
    Absorbed,
    /// A surface was struck and its material sent out a new ray.
    Scattered,
}

/// What a path through the scene does next.
#[derive(Clone, Copy, Debug, PartialEq, Eq, Structural)]
pub enum Step {
    /// Cast the current ray into the scene; this many bounces are left,
    /// the coming one included.
    Query(u16),
    /// The path ends and contributes black.
    Black,
    /// The path ends in the sky gradient.
    Sky,
}

pub open spec fn first_step(depth: u16) -> Step {
    if depth == 0 {
        Step::Black
    } else {
        Step::Query(depth)
    }
}

pub open spec fn next_step(budget: u16, event: Event) -> Step {
    match event {
        Event::Missed => Step::Sky,
        Event::Absorbed => Step::Black,
        Event::Scattered => first_step((budget - 1) as u16),
    }
}

/// How many bounces a step still allows.
pub open spec fn budget_of(s: Step) -> nat {
    match s {
        Step::Query(b) => b as nat,
        _ => 0,
    }
}

/// The number of scene queries made from `s` when the scene answers with
/// `events`, one per query, and the step reached when the answers run out or
/// the path ends.
pub open spec fn run(s: Step, events: Seq<Event>) -> (nat, Step)
    decreases events.len(),
{
    match s {
        Step::Query(b) => {
            if events.len() == 0 || b == 0 {
                (0, s)
            } else {
                let (n, end) = run(next_step(b, events[0]), events.drop_first());
                (n + 1, end)
            }
        },
        _ => (0, s),
    }
}

/// The first step of a path allowed `depth` bounces: with no bounce left it
/// ends in black at once, before any query.
pub fn begin(depth: u16) -> (s: Step)
    ensures
        s == first_step(depth),
        depth == 0 ==> s == Step::Black,
{
    if depth == 0 {
        Step::Black
    } else {
        Step::Query(depth)
    }
}

/// The step after a query with `budget` bounces left was answered by `event`.
pub fn advance(budget: u16, event: Event) -> (s: Step)
    requires
        budget > 0,
    ensures
        s == next_step(budget, event),
{
    match event {
        Event::Missed => Step::Sky,
        Event::Absorbed => Step::Black,
        Event::Scattered => begin(budget - 1),
    }
}

proof fn lemma_run_within_budget(s: Step, events: Seq<Event>)
    requires
        s != Step::Query(0),
    ensures
        run(s, events).0 <= budget_of(s),
        events.len() >= budget_of(s) ==> !(run(s, events).1 is Query),
    decreases events.len(),
{
    if let Step::Query(b) = s {
        if events.len() > 0 && b > 0 {
            lemma_run_within_budget(next_step(b, events[0]), events.drop_first());
        }
    }
}

/// A path allowed `depth` bounces queries the scene at most `depth` times,
/// and once the scene has answered `depth` times the path has ended. With
/// `depth` zero it ends in black without any query.
pub proof fn lemma_depth_bounds_queries(depth: u16, events: Seq<Event>)
    ensures
        run(first_step(depth), events).0 <= depth,
        events.len() >= depth ==> !(run(first_step(depth), events).1 is Query),
        depth == 0 ==> run(first_step(depth), events) == (0nat, Step::Black),
{
    lemma_run_within_budget(first_step(depth), events);
}

} // verus!
