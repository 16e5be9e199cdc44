use vstd::prelude::*;

verus! {

/// Drawing commands buffered in the order in which they were issued, to be
/// replayed all at once when the window opens.
pub struct DrawQueue<T> {
    commands: Vec<T>,
}

impl<T> View for DrawQueue<T> {
    type V = Seq<T>;

    closed spec fn view(&self) -> Seq<T> {
        self.commands@
    }
}

impl<T> DrawQueue<T> {
    /// An empty queue.
    pub fn new() -> (q: Self)
        ensures
            q@ == Seq::<T>::empty(),
    {
        DrawQueue { commands: Vec::new() }
    }

    /// Appends a command after those already queued. Returns 0, the status
    /// that every drawing call reports to its caller.
    pub fn push(&mut self, command: T) -> (status: i32)
        ensures
            status == 0,
            final(self)@ == old(self)@.push(command),
    {
        self.commands.push(command);
        0
    }

    /// The number of queued commands.
    pub fn len(&self) -> (n: usize)
        ensures
            n == self@.len(),
    {
        self.commands.len()
    }

    /// Hands out every queued command, oldest first, and leaves the queue
    /// empty.
    pub fn take_all(&mut self) -> (commands: Vec<T>)
        ensures
            commands@ == old(self)@,
            final(self)@ == Seq::<T>::empty(),
    {
        let mut commands: Vec<T> = Vec::new();
        std::mem::swap(&mut commands, &mut self.commands);
        commands
    }
}

/// The queue after `commands` have been pushed one by one onto a queue
/// holding `start`.
pub open spec fn after_pushes<T>(start: Seq<T>, commands: Seq<T>) -> Seq<T>
    decreases commands.len(),
{
    if commands.len() == 0 {
        start
    } else {
        after_pushes(start.push(commands[0]), commands.drop_first())
    }
}

/// Commands are replayed in the order in which they were drawn: pushing a
/// run of commands onto a queue appends exactly that run, so the commands
/// that `take_all` hands out after pushes onto an empty queue are the
/// pushed commands in call order.
pub proof fn lemma_replay_in_call_order<T>(start: Seq<T>, commands: Seq<T>)
    ensures
        after_pushes(start, commands) == start + commands,
        after_pushes(Seq::<T>::empty(), commands) == commands,
    decreases commands.len(),
{
    if commands.len() > 0 {
        lemma_replay_in_call_order(start.push(commands[0]), commands.drop_first());
        assert(start.push(commands[0]) + commands.drop_first() =~= start + commands);
    } else {
        assert(start + commands =~= start);
    }
    assert(Seq::<T>::empty() + commands =~= commands);
    if commands.len() > 0 {
        lemma_replay_in_call_order(Seq::<T>::empty().push(commands[0]), commands.drop_first());
        assert(Seq::<T>::empty().push(commands[0]) + commands.drop_first() =~= commands);
    }
}

/// The number of segments into which the arcs of a ring sector are cut.
pub const RING_SECTOR_STEPS: u32 = 30;

/// A vertex of a ring sector's outline: sample `step` (of `steps`) along
/// the outer arc or along the inner arc. Sample `s` lies at angle
/// `start + s / steps * sweep`.
#[derive(Clone, Copy, Debug, PartialEq, Eq, Structural)]
pub struct OutlinePoint {
    pub outer: bool,
    pub step: u32,
}

/// Vertex `k` of the outline of a ring sector cut into `steps` segments:
/// first the outer arc from sample 0 to `steps`, then the inner arc back
/// from `steps` to 0.
pub open spec fn outline_point(steps: int, k: int) -> (bool, int) {
    if k <= steps {
        (true, k)
    } else {
        (false, 2 * steps + 1 - k)
    }
}

/// The vertices of a ring sector's closed outline, in drawing order: along
/// the outer arc from its start to its end, then along the inner arc from
/// its end back to its start.
pub fn ring_sector_outline(steps: u32) -> (points: Vec<OutlinePoint>)
    ensures
        points.len() == 2 * steps + 2,
        forall|k: int|
            0 <= k < points.len() ==> (#[trigger] points[k].outer, points[k].step as int)
                == outline_point(steps as int, k),
{
    let mut points: Vec<OutlinePoint> = Vec::new();
    let mut s: u64 = 0;
    while s <= steps as u64
        invariant
            s <= steps as u64 + 1,
            points.len() == s,
            forall|k: int|
                0 <= k < points.len() ==> (#[trigger] points[k].outer, points[k].step as int)
                    == outline_point(steps as int, k),
        decreases steps as u64 + 1 - s,
    {
        points.push(OutlinePoint { outer: true, step: s as u32 });
        s = s + 1;
    }
    let mut r: u64 = steps as u64 + 1;
    while r > 0
        invariant
            r <= steps as u64 + 1,
            points.len() == 2 * (steps as int) + 2 - r,
            forall|k: int|
                0 <= k < points.len() ==> (#[trigger] points[k].outer, points[k].step as int)
                    == outline_point(steps as int, k),
        decreases r,
    {
        r = r - 1;
        points.push(OutlinePoint { outer: false, step: r as u32 });
    }
    points
}

/// The outline is closed and passes every sample of each arc exactly once:
/// it starts at the start of the outer arc, ends at the start of the inner
/// arc, and each sample `s` of either arc is vertex number `s` (outer) or
/// `2 * steps + 1 - s` (inner) and no other.
pub proof fn lemma_outline_visits_each_sample_once(steps: u32, outer: bool, s: int, k: int)
    requires
        0 <= s <= steps,
        0 <= k < 2 * steps + 2,
    ensures
        outline_point(steps as int, 0) == (true, 0int),
        outline_point(steps as int, 2 * steps + 1) == (false, 0int),
        outline_point(steps as int, k) == (outer, s) <==> k == (if outer {
            s
        } else {
            2 * steps + 1 - s
        }),
{
}

} // verus!
