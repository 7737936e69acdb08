//! The carousel: an immutable sequence of items and a cursor that moves over
//! it as over a ring.

use vstd::prelude::*;

verus! {

/// A command that the host delivers to the carousel.
#[derive(Clone, Copy, Debug, PartialEq, Eq, Structural)]
pub enum RevolverMessage {
    /// Step to the previous item, wrapping from the first to the last.
    ChangeLeft,
    /// Jump to the first item.
    ChangeToStart,
    /// Step to the next item, wrapping from the last to the first.
    ChangeRight,
    /// Jump to the last item.
    ChangeToEnd,
    /// End the session. The carousel itself is left as it is.
    RequestClose,
}

/// What the host has to do once a command has been handled.
#[derive(Clone, Copy, Debug, PartialEq, Eq, Structural)]
pub enum Outcome {
    /// A navigation command was applied: draw the item under the cursor.
    StateChanged,
    /// The session is over: shut down.
    Terminate,
}

/// The mathematical carousel that a [`Revolver`] stands for.
pub struct Carousel {
    /// The items, in the order in which they were loaded.
    pub items: Seq<String>,
    /// The index of the item on display.
    pub cursor: nat,
}

impl Carousel {
    /// The number of items.
    pub open spec fn count(self) -> nat {
        self.items.len()
    }

    /// The cursor points at an item, or rests at zero where there is none.
    pub open spec fn wf(self) -> bool {
        if self.count() == 0 {
            self.cursor == 0
        } else {
            self.cursor < self.count()
        }
    }

    /// The same items with the cursor at `cursor`.
    pub open spec fn at(self, cursor: nat) -> Carousel {
        Carousel { items: self.items, cursor }
    }

    /// One step back on the ring. An empty carousel stays as it is.
    pub open spec fn left(self) -> Carousel {
        if self.count() == 0 {
            self
        } else if self.cursor == 0 {
            self.at((self.count() - 1) as nat)
        } else {
            self.at((self.cursor - 1) as nat)
        }
    }

    /// One step forward on the ring. An empty carousel stays as it is.
    pub open spec fn right(self) -> Carousel {
        if self.count() == 0 {
            self
        } else if self.cursor + 1 == self.count() {
            self.at(0)
        } else {
            self.at(self.cursor + 1)
        }
    }

    /// The cursor on the first item.
    pub open spec fn first(self) -> Carousel {
        self.at(0)
    }

    /// The cursor on the last item. An empty carousel stays as it is.
    pub open spec fn last(self) -> Carousel {
        if self.count() == 0 {
            self
        } else {
            self.at((self.count() - 1) as nat)
        }
    }

    /// The carousel after `message`. Closing is no move: it changes nothing.
    pub open spec fn apply(self, message: RevolverMessage) -> Carousel {
        match message {
            RevolverMessage::ChangeLeft => self.left(),
            RevolverMessage::ChangeToStart => self.first(),
            RevolverMessage::ChangeRight => self.right(),
            RevolverMessage::ChangeToEnd => self.last(),
            RevolverMessage::RequestClose => self,
        }
    }

    /// The carousel after `n` steps forward.
    pub open spec fn right_n(self, n: nat) -> Carousel
        decreases n,
    {
        if n == 0 {
            self
        } else {
            self.right_n((n - 1) as nat).right()
        }
    }
}

/// Every command leads from a well-formed carousel to a well-formed carousel
/// over the same items.
pub proof fn lemma_apply_keeps_wf(c: Carousel, message: RevolverMessage)
    requires
        c.wf(),
    ensures
        c.apply(message).wf(),
        c.apply(message).items == c.items,
{
}

/// A step back and a step forward undo each other, in either order.
pub proof fn lemma_left_right_inverse(c: Carousel)
    requires
        c.wf(),
    ensures
        c.left().right() == c,
        c.right().left() == c,
{
}

/// A step back from the first item leads to the last, and a step forward
/// from the last leads to the first.
pub proof fn lemma_wraps_at_ends(c: Carousel)
    requires
        c.wf(),
        c.count() > 0,
    ensures
        c.cursor == 0 ==> c.left().cursor == c.count() - 1,
        c.cursor == c.count() - 1 ==> c.right().cursor == 0,
{
}

/// A jump to the start puts the cursor at zero wherever it was, and a jump to
/// the end puts it on the last item where there is one.
pub proof fn lemma_jumps_reach_ends(c: Carousel)
    ensures
        c.first().cursor == 0,
        c.count() > 0 ==> c.last().cursor == c.count() - 1,
{
}

/// No command changes an empty carousel.
pub proof fn lemma_empty_is_fixed(c: Carousel, message: RevolverMessage)
    requires
        c.wf(),
        c.count() == 0,
    ensures
        c.apply(message) == c,
{
}

/// One more than `x`, taken modulo `m`, is the successor on the ring of `x`
/// taken modulo `m`.
proof fn lemma_mod_successor(x: int, m: int)
    requires
        0 <= x,
        0 < m,
    ensures
        (x + 1) % m == if x % m + 1 == m {
            0
        } else {
            x % m + 1
        },
{
    assert((x + 1) % m == if x % m + 1 == m {
        0
    } else {
        x % m + 1
    }) by (nonlinear_arith)
        requires
            0 <= x,
            0 < m,
    ;
}

/// After `n` steps forward the cursor has advanced by `n` modulo the number
/// of items.
pub proof fn lemma_right_n_advances(c: Carousel, n: nat)
    requires
        c.wf(),
        c.count() > 0,
    ensures
        c.right_n(n) == c.at((c.cursor + n) % c.count()),
    decreases n,
{
    let m = c.count() as int;
    if n == 0 {
        assert(c.cursor as int % m == c.cursor as int) by (nonlinear_arith)
            requires
                0 <= c.cursor < m,
        ;
    } else {
        lemma_right_n_advances(c, (n - 1) as nat);
        lemma_mod_successor(c.cursor + n - 1, m);
    }
}

/// As many steps forward as there are items lead back to where they began.
pub proof fn lemma_full_cycle(c: Carousel)
    requires
        c.wf(),
    ensures
        c.right_n(c.count()) == c,
{
    if c.count() > 0 {
        let m = c.count() as int;
        lemma_right_n_advances(c, c.count());
        assert((c.cursor + m) % m == c.cursor as int) by (nonlinear_arith)
            requires
                0 <= c.cursor < m,
        ;
    }
}

/// The carousel itself: the loaded items and the cursor over them.
///
/// The items are fixed once the value is made; only the cursor moves.
#[derive(Debug)]
pub struct Revolver {
    numpics: usize,
    current: usize,
    svgs: Vec<String>,
}

impl View for Revolver {
    type V = Carousel;

    closed spec fn view(&self) -> Carousel {
        Carousel { items: self.svgs@, cursor: self.current as nat }
    }
}

impl Clone for Revolver {
    /// A second carousel with the same items and the same cursor.
    fn clone(&self) -> (r: Revolver)
        ensures
            r@ == self@,
    {
        proof {
            use_type_invariant(self);
        }
        let svgs = self.svgs.clone();
        assert(svgs@ =~= self.svgs@);
        Revolver { numpics: self.numpics, current: self.current, svgs }
    }
}

impl Revolver {
    #[verifier::type_invariant]
    spec fn inv(self) -> bool {
        &&& self.numpics == self.svgs@.len()
        &&& self@.wf()
    }

    /// A carousel over `svgs`, in their order, with the cursor on the first.
    pub fn new(svgs: Vec<String>) -> (r: Revolver)
        ensures
            r@ == (Carousel { items: svgs@, cursor: 0 }),
            r@.wf(),
    {
        Revolver { numpics: svgs.len(), current: 0, svgs }
    }

    /// The number of items.
    pub fn count(&self) -> (count: usize)
        ensures
            count == self@.count(),
            self@.wf(),
    {
        proof {
            use_type_invariant(self);
        }
        self.numpics
    }

    /// The index of the item on display.
    pub fn cursor(&self) -> (cursor: usize)
        ensures
            cursor == self@.cursor,
            self@.wf(),
    {
        proof {
            use_type_invariant(self);
        }
        self.current
    }

    /// The items, in the order in which they were loaded.
    pub fn items(&self) -> (items: &Vec<String>)
        ensures
            items@ == self@.items,
    {
        &self.svgs
    }

    /// The cursor after one step back: the last item from the first, else
    /// the item before. On an empty carousel the cursor stays.
    pub fn left(&self) -> (next: usize)
        ensures
            next == self@.left().cursor,
            self@.count() > 0 && self@.cursor == 0 ==> next == self@.count() - 1,
    {
        proof {
            use_type_invariant(self);
        }
        if self.numpics == 0 {
            self.current
        } else if self.current == 0 {
            self.numpics - 1
        } else {
            self.current - 1
        }
    }

    /// The cursor on the first item: always zero.
    pub fn first(&self) -> (next: usize)
        ensures
            next == 0,
            next == self@.first().cursor,
    {
        0
    }

    /// The cursor after one step forward: the first item from the last, else
    /// the item after. On an empty carousel the cursor stays.
    pub fn right(&self) -> (next: usize)
        ensures
            next == self@.right().cursor,
            self@.count() > 0 && self@.cursor == self@.count() - 1 ==> next == 0,
    {
        proof {
            use_type_invariant(self);
        }
        if self.numpics == 0 {
            self.current
        } else if self.current == self.numpics - 1 {
            0
        } else {
            self.current + 1
        }
    }

    /// The cursor on the last item. On an empty carousel the cursor stays.
    pub fn last(&self) -> (next: usize)
        ensures
            next == self@.last().cursor,
            self@.count() > 0 ==> next == self@.count() - 1,
    {
        proof {
            use_type_invariant(self);
        }
        if self.numpics == 0 {
            self.current
        } else {
            self.numpics - 1
        }
    }

    /// Handles one command. A navigation command moves the cursor and leaves
    /// the items alone; closing moves nothing and tells the host to stop.
    pub fn update(&mut self, message: RevolverMessage) -> (outcome: Outcome)
        ensures
            final(self)@ == old(self)@.apply(message),
            final(self)@.wf(),
            old(self)@.count() == 0 ==> final(self)@ == old(self)@,
            outcome is Terminate <==> message is RequestClose,
    {
        proof {
            use_type_invariant(&*self);
        }
        match message {
            RevolverMessage::ChangeLeft => {
                self.current = self.left();
                Outcome::StateChanged
            },
            RevolverMessage::ChangeRight => {
                self.current = self.right();
                Outcome::StateChanged
            },
            RevolverMessage::ChangeToStart => {
                self.current = self.first();
                Outcome::StateChanged
            },
            RevolverMessage::ChangeToEnd => {
                self.current = self.last();
                Outcome::StateChanged
            },
            RevolverMessage::RequestClose => Outcome::Terminate,
        }
    }

    /// The item under the cursor, or `None` where the carousel is empty.
    pub fn current_item(&self) -> (item: Option<&String>)
        ensures
            self@.wf(),
            self@.count() == 0 ==> item is None,
            self@.count() > 0 ==> item == Some(&self@.items[self@.cursor as int]),
    {
        proof {
            use_type_invariant(self);
        }
        if self.numpics == 0 {
            None
        } else {
            Some(&self.svgs[self.current])
        }
    }
}

} // verus!
