//! Printing that waits while the user types: messages printed while input is being read
//! are held back and printed, in order, once the input is in.
use vstd::prelude::*;

verus! {

/// Holds messages back while the console is taken by a prompt.
pub struct PrintQueue {
    blocked: bool,
    queue: Vec<String>,
}

/// Something done to the queue, for the laws on sequences of such things.
pub enum ConsoleOp {
    /// A message printed (`safe_print`).
    Print(Seq<char>),
    /// A prompt takes the console.
    Block,
    /// The prompt gives the console back and what was held back is printed.
    Unblock,
    /// What was held back is printed (`flush_print_queue`).
    Flush,
}

/// What the queue puts on the console for `op`, when it is blocked or not and holds `pending`.
pub open spec fn op_output(blocked: bool, pending: Seq<Seq<char>>, op: ConsoleOp) -> Seq<Seq<char>> {
    match op {
        ConsoleOp::Print(m) => if blocked {
            seq![]
        } else {
            seq![m]
        },
        ConsoleOp::Block => seq![],
        ConsoleOp::Unblock => pending,
        ConsoleOp::Flush => pending,
    }
}

/// Whether the queue is blocked after `op`.
pub open spec fn op_blocked(blocked: bool, op: ConsoleOp) -> bool {
    match op {
        ConsoleOp::Block => true,
        ConsoleOp::Unblock => false,
        _ => blocked,
    }
}

/// What the queue holds back after `op`.
pub open spec fn op_pending(blocked: bool, pending: Seq<Seq<char>>, op: ConsoleOp) -> Seq<Seq<char>> {
    match op {
        ConsoleOp::Print(m) => if blocked {
            pending.push(m)
        } else {
            pending
        },
        ConsoleOp::Block => pending,
        ConsoleOp::Unblock => seq![],
        ConsoleOp::Flush => seq![],
    }
}

/// The state (blocked, held back) and everything put on the console after running `ops`.
pub open spec fn run_ops(blocked: bool, pending: Seq<Seq<char>>, ops: Seq<ConsoleOp>) -> (
    bool,
    Seq<Seq<char>>,
    Seq<Seq<char>>,
)
    decreases ops.len(),
{
    if ops.len() == 0 {
        (blocked, pending, seq![])
    } else {
        let (b, p, out) = run_ops(blocked, pending, ops.drop_last());
        (op_blocked(b, ops.last()), op_pending(b, p, ops.last()), out + op_output(b, p, ops.last()))
    }
}

/// The messages printed in `ops`, in order.
pub open spec fn printed(ops: Seq<ConsoleOp>) -> Seq<Seq<char>>
    decreases ops.len(),
{
    if ops.len() == 0 {
        seq![]
    } else {
        match ops.last() {
            ConsoleOp::Print(m) => printed(ops.drop_last()).push(m),
            _ => printed(ops.drop_last()),
        }
    }
}

/// No message is lost, doubled or reordered: from any state that a queue can be in (an
/// open queue holds nothing back), what reaches the console, followed by what is still
/// held back, is what was held back at the start and then the messages printed, in order.
pub proof fn lemma_queue_keeps_order(blocked: bool, pending: Seq<Seq<char>>, ops: Seq<ConsoleOp>)
    requires
        !blocked ==> pending.len() == 0,
    ensures
        ({
            let (_, left, out) = run_ops(blocked, pending, ops);
            out + left == pending + printed(ops)
        }),
    decreases ops.len(),
{
    if ops.len() > 0 {
        lemma_queue_keeps_order(blocked, pending, ops.drop_last());
        let (b, p, out) = run_ops(blocked, pending, ops.drop_last());
        match ops.last() {
            ConsoleOp::Print(m) => {
                if b {
                    assert(out + p.push(m) =~= (out + p).push(m));
                } else {
                    assert(p.len() == 0) by {
                        lemma_unblocked_holds_nothing(blocked, pending, ops.drop_last());
                    }
                    assert(out + seq![m] + p =~= (out + p).push(m));
                }
            },
            _ => {
                assert(out + op_output(b, p, ops.last()) + op_pending(b, p, ops.last()) =~= out
                    + p);
            },
        }
        assert(pending + printed(ops.drop_last()) + match ops.last() {
            ConsoleOp::Print(m) => seq![m],
            _ => seq![],
        } =~= pending + printed(ops));
    }
}

/// An open queue holds nothing back, in every state reached from one that an open queue
/// holds nothing back in.
pub proof fn lemma_unblocked_holds_nothing(blocked: bool, pending: Seq<Seq<char>>, ops: Seq<ConsoleOp>)
    requires
        !blocked ==> pending.len() == 0,
    ensures
        ({
            let (b, left, _) = run_ops(blocked, pending, ops);
            !b ==> left.len() == 0
        }),
    decreases ops.len(),
{
    if ops.len() > 0 {
        lemma_unblocked_holds_nothing(blocked, pending, ops.drop_last());
    }
}

impl PrintQueue {
    /// Whether a prompt holds the console.
    pub closed spec fn is_blocked(&self) -> bool {
        self.blocked
    }

    /// The messages held back, oldest first.
    pub closed spec fn pending(&self) -> Seq<Seq<char>> {
        self.queue@.map_values(|m: String| m@)
    }

    /// The state is one that a queue can be in: an open queue holds nothing back.
    pub open spec fn consistent(&self) -> bool {
        !self.is_blocked() ==> self.pending().len() == 0
    }

    /// An open queue with nothing held back.
    pub fn new() -> (g: PrintQueue)
        ensures
            !g.is_blocked(),
            g.pending() == Seq::<Seq<char>>::empty(),
            g.consistent(),
    {
        let g = PrintQueue { blocked: false, queue: Vec::new() };
        assert(g.pending() =~= Seq::<Seq<char>>::empty());
        g
    }

    /// Prints `message` (`safe_print`): gives it back to be put on the console now, or
    /// holds it back while the console is taken.
    pub fn print(&mut self, message: &str) -> (now: Option<String>)
        ensures
            old(self).consistent() ==> final(self).consistent(),
            final(self).is_blocked() == op_blocked(
                old(self).is_blocked(),
                ConsoleOp::Print(message@),
            ),
            final(self).pending() == op_pending(
                old(self).is_blocked(),
                old(self).pending(),
                ConsoleOp::Print(message@),
            ),
            match now {
                Some(m) => op_output(
                    old(self).is_blocked(),
                    old(self).pending(),
                    ConsoleOp::Print(message@),
                ) == seq![m@],
                None => op_output(
                    old(self).is_blocked(),
                    old(self).pending(),
                    ConsoleOp::Print(message@),
                ).len() == 0,
            },
    {
        let m = message.to_owned();
        if self.blocked {
            let ghost before = self.pending();
            self.queue.push(m);
            assert(self.pending() =~= before.push(message@));
            None
        } else {
            Some(m)
        }
    }

    /// A prompt takes the console.
    pub fn block(&mut self)
        ensures
            old(self).consistent() ==> final(self).consistent(),
            final(self).is_blocked() == op_blocked(old(self).is_blocked(), ConsoleOp::Block),
            final(self).pending() == op_pending(
                old(self).is_blocked(),
                old(self).pending(),
                ConsoleOp::Block,
            ),
    {
        self.blocked = true;
    }

    /// Hands out what was held back, oldest first, and holds nothing back any more.
    pub fn flush(&mut self) -> (out: Vec<String>)
        ensures
            old(self).consistent() ==> final(self).consistent(),
            final(self).is_blocked() == op_blocked(old(self).is_blocked(), ConsoleOp::Flush),
            final(self).pending() == op_pending(
                old(self).is_blocked(),
                old(self).pending(),
                ConsoleOp::Flush,
            ),
            out@.map_values(|m: String| m@) == op_output(
                old(self).is_blocked(),
                old(self).pending(),
                ConsoleOp::Flush,
            ),
    {
        let mut out: Vec<String> = Vec::new();
        std::mem::swap(&mut out, &mut self.queue);
        assert(self.pending() =~= Seq::<Seq<char>>::empty());
        out
    }

    /// The prompt gives the console back; hands out what was held back, oldest first.
    pub fn unblock(&mut self) -> (out: Vec<String>)
        ensures
            old(self).consistent() ==> final(self).consistent(),
            final(self).is_blocked() == op_blocked(old(self).is_blocked(), ConsoleOp::Unblock),
            final(self).pending() == op_pending(
                old(self).is_blocked(),
                old(self).pending(),
                ConsoleOp::Unblock,
            ),
            out@.map_values(|m: String| m@) == op_output(
                old(self).is_blocked(),
                old(self).pending(),
                ConsoleOp::Unblock,
            ),
    {
        self.blocked = false;
        self.flush()
    }
}

} // verus!
