//! An append-only log kept as a singly linked list, newest element first.

use vstd::prelude::*;
use vstd::std_specs::cmp::PartialEqSpec;

verus! {

type Link<T> = Option<Box<Node<T>>>;

struct Node<T> {
    elem: T,
    next: Link<T>,
}

/// A list whose first element is the one pushed last. Its view is the
/// sequence of its elements, from the newest to the oldest.
pub struct List<T> {
    head: Link<T>,
}

/// The elements reachable from `link`, in order.
spec fn link_view<T>(link: Link<T>) -> Seq<T>
    decreases link,
{
    match link {
        None => Seq::empty(),
        Some(node) => seq![node.elem].add(link_view(node.next)),
    }
}

impl<T> View for List<T> {
    type V = Seq<T>;

    closed spec fn view(&self) -> Seq<T> {
        link_view(self.head)
    }
}

/// Whether some element of `s` compares equal to `value`.
pub open spec fn seq_has<T: PartialEq>(s: Seq<T>, value: T) -> bool {
    exists|i: int| 0 <= i < s.len() && (#[trigger] s[i]).eq_spec(&value)
}

/// Whether every element of `other` compares equal to some element of `s`.
pub open spec fn seq_has_all<T: PartialEq>(s: Seq<T>, other: Seq<T>) -> bool {
    forall|j: int| 0 <= j < other.len() ==> seq_has(s, #[trigger] other[j])
}

/// Whether `a` and `b` have the same length and compare equal element by
/// element.
pub open spec fn seq_eq<T: PartialEq>(a: Seq<T>, b: Seq<T>) -> bool {
    &&& a.len() == b.len()
    &&& forall|i: int| 0 <= i < a.len() ==> (#[trigger] a[i]).eq_spec(&b[i])
}

/// Whether comparing two values of `T` for equality tells whether they are
/// the same value.
pub open spec fn eq_is_identity<T: PartialEq>() -> bool {
    &&& T::obeys_eq_spec()
    &&& forall|a: T, b: T| #[trigger] a.eq_spec(&b) <==> a == b
}

/// Whether `log` is `prev` with `x` put in front.
pub open spec fn seq_is_union<T>(log: Seq<T>, prev: Seq<T>, x: T) -> bool {
    &&& log.len() == prev.len() + 1
    &&& log[0] == x
    &&& forall|i: int| 0 <= i < prev.len() ==> log[i + 1] == #[trigger] prev[i]
}

/// Whether `now` is `prev` without its first element.
pub open spec fn seq_head_removed<T>(now: Seq<T>, prev: Seq<T>) -> bool {
    &&& now.len() == prev.len() - 1
    &&& forall|i: int| 1 <= i < prev.len() ==> #[trigger] prev[i] == now[i - 1]
}

/// Putting `x` in front of `prev` is the one sequence that is the union of
/// `prev` and `x`.
pub proof fn lemma_is_union_iff_push_front<T>(log: Seq<T>, prev: Seq<T>, x: T)
    ensures
        seq_is_union(log, prev, x) <==> log == seq![x].add(prev),
{
    let pushed = seq![x].add(prev);
    if seq_is_union(log, prev, x) {
        assert forall|i: int| 0 <= i < log.len() implies log[i] == pushed[i] by {
            if i > 0 {
                assert(log[(i - 1) + 1] == prev[i - 1]);
            }
        }
        assert(log =~= pushed);
    }
    if log == pushed {
        assert forall|i: int| 0 <= i < prev.len() implies log[i + 1] == #[trigger] prev[i] by {
        }
    }
}

/// Dropping the first element of `prev` is the one sequence that is `prev`
/// with its head removed.
pub proof fn lemma_head_removed_iff_tail<T>(now: Seq<T>, prev: Seq<T>)
    requires
        prev.len() > 0,
    ensures
        seq_head_removed(now, prev) <==> now == prev.subrange(1, prev.len() as int),
{
    let tail = prev.subrange(1, prev.len() as int);
    if seq_head_removed(now, prev) {
        assert forall|i: int| 0 <= i < now.len() implies now[i] == tail[i] by {
            assert(prev[i + 1] == now[(i + 1) - 1]);
        }
        assert(now =~= tail);
    }
}

fn link_lookup<T>(link: &Link<T>, index: usize) -> (elem: &T)
    requires
        index < link_view(*link).len(),
    ensures
        *elem == link_view(*link)[index as int],
    decreases *link,
{
    match link {
        Some(node) => {
            if index == 0 {
                &node.elem
            } else {
                link_lookup(&node.next, index - 1)
            }
        },
        None => unreached(),
    }
}

fn link_contains<T>(link: &Link<T>, value: T) -> (found: bool) where T: PartialEq + Copy
    ensures
        T::obeys_eq_spec() ==> found == seq_has(link_view(*link), value),
    decreases *link,
{
    match link {
        Some(node) => {
            let ghost here = link_view(*link);
            let ghost rest = link_view(node.next);
            if node.elem == value {
                proof {
                    if T::obeys_eq_spec() {
                        assert(here[0].eq_spec(&value));
                    }
                }
                true
            } else {
                let found = link_contains(&node.next, value);
                proof {
                    if T::obeys_eq_spec() {
                        if found {
                            let i = choose|i: int| 0 <= i < rest.len() && (#[trigger] rest[i]).eq_spec(&value);
                            assert(here[i + 1] == rest[i]);
                            assert(here[i + 1].eq_spec(&value));
                        }
                        if seq_has(here, value) {
                            let i = choose|i: int| 0 <= i < here.len() && (#[trigger] here[i]).eq_spec(&value);
                            assert(i != 0);
                            assert(rest[i - 1] == here[i]);
                            assert(rest[i - 1].eq_spec(&value));
                        }
                    }
                }
                found
            }
        },
        None => false,
    }
}

fn link_contains_all<T>(link: &Link<T>, other: &Link<T>) -> (all: bool) where T: PartialEq + Copy
    ensures
        T::obeys_eq_spec() ==> all == seq_has_all(link_view(*link), link_view(*other)),
    decreases *other,
{
    match other {
        Some(node) => {
            let ghost s = link_view(*link);
            let ghost o = link_view(*other);
            let ghost rest = link_view(node.next);
            if !link_contains(link, node.elem) {
                proof {
                    if T::obeys_eq_spec() {
                        assert(o[0] == node.elem);
                    }
                }
                false
            } else {
                let all = link_contains_all(link, &node.next);
                proof {
                    if T::obeys_eq_spec() {
                        if all {
                            assert forall|j: int| 0 <= j < o.len() implies seq_has(s, #[trigger] o[j]) by {
                                if j > 0 {
                                    assert(o[j] == rest[j - 1]);
                                }
                            }
                        }
                        if seq_has_all(s, o) {
                            assert forall|j: int| 0 <= j < rest.len() implies seq_has(s, #[trigger] rest[j]) by {
                                assert(rest[j] == o[j + 1]);
                            }
                        }
                    }
                }
                all
            }
        },
        None => true,
    }
}

fn link_same<T>(link1: &Link<T>, link2: &Link<T>) -> (same: bool) where T: PartialEq
    ensures
        T::obeys_eq_spec() ==> same == seq_eq(link_view(*link1), link_view(*link2)),
    decreases *link1,
{
    let ghost a = link_view(*link1);
    let ghost b = link_view(*link2);
    match link1 {
        Some(node1) => match link2 {
            Some(node2) => {
                let ghost ra = link_view(node1.next);
                let ghost rb = link_view(node2.next);
                if node1.elem == node2.elem {
                    let same = link_same(&node1.next, &node2.next);
                    proof {
                        if T::obeys_eq_spec() {
                            if same {
                                assert forall|i: int| 0 <= i < a.len() implies (#[trigger] a[i]).eq_spec(
                                    &b[i],
                                ) by {
                                    if i > 0 {
                                        assert(ra[i - 1].eq_spec(&rb[i - 1]));
                                    }
                                }
                            }
                            if seq_eq(a, b) {
                                assert forall|i: int| 0 <= i < ra.len() implies (#[trigger] ra[i]).eq_spec(
                                    &rb[i],
                                ) by {
                                    assert(a[i + 1].eq_spec(&b[i + 1]));
                                }
                            }
                        }
                    }
                    same
                } else {
                    proof {
                        if T::obeys_eq_spec() {
                            assert(!a[0].eq_spec(&b[0]));
                        }
                    }
                    false
                }
            },
            None => false,
        },
        None => match link2 {
            Some(_) => false,
            None => true,
        },
    }
}

fn link_len<T>(link: &Link<T>) -> (len: usize)
    requires
        link_view(*link).len() <= usize::MAX,
    ensures
        len == link_view(*link).len(),
    decreases *link,
{
    match link {
        None => 0,
        Some(node) => 1 + link_len(&node.next),
    }
}

fn link_eq<T>(link1: &Link<T>, link2: &Link<T>, n: usize) -> (same: bool) where T: PartialEq
    requires
        link_view(*link1).len() <= usize::MAX,
        link_view(*link2).len() <= usize::MAX,
    ensures
        T::obeys_eq_spec() ==> same == (link_view(*link1).len() == n && seq_eq(
            link_view(*link1),
            link_view(*link2),
        )),
    decreases *link1,
{
    let ghost a = link_view(*link1);
    let ghost b = link_view(*link2);
    if link_len(link1) != n {
        return false;
    } else if link_len(link2) != n {
        return false;
    } else {
        match link1 {
            Some(node1) => {
                match link2 {
                    Some(node2) => {
                        let ghost ra = link_view(node1.next);
                        let ghost rb = link_view(node2.next);
                        if node1.elem == node2.elem {
                            let same = link_eq(&node1.next, &node2.next, n - 1);
                            proof {
                                if T::obeys_eq_spec() {
                                    if same {
                                        assert forall|i: int| 0 <= i < a.len() implies (#[trigger] a[i]).eq_spec(&b[i]) by {
                                            if i > 0 {
                                                assert(ra[i - 1].eq_spec(&rb[i - 1]));
                                            }
                                        }
                                    }
                                    if seq_eq(a, b) {
                                        assert forall|i: int| 0 <= i < ra.len() implies (#[trigger] ra[i]).eq_spec(&rb[i]) by {
                                            assert(a[i + 1].eq_spec(&b[i + 1]));
                                        }
                                    }
                                }
                            }
                            same
                        } else {
                            proof {
                                if T::obeys_eq_spec() {
                                    assert(!a[0].eq_spec(&b[0]));
                                }
                            }
                            false
                        }
                    },
                    None => false,
                }
            },
            None => match link2 {
                Some(_) => false,
                None => true,
            },
        }
    }
}

impl<T> List<T> where T: PartialEq + Copy {
    /// The number of elements.
    pub fn len(&self) -> (len: usize)
        requires
            self@.len() <= usize::MAX,
        ensures
            len == self@.len(),
    {
        link_len(&self.head)
    }

    pub fn is_empty(&self) -> (empty: bool)
        ensures
            empty == (self@.len() == 0),
    {
        matches!(self.head, None)
    }

    /// The empty list.
    pub fn new() -> (list: Self)
        ensures
            list@ == Seq::<T>::empty(),
    {
        List { head: None }
    }

    /// The element at `index`, counted from the newest.
    pub fn lookup(&self, index: usize) -> (elem: &T)
        requires
            index < self@.len(),
        ensures
            *elem == self@[index as int],
    {
        link_lookup(&self.head, index)
    }

    /// Whether some element compares equal to `value`.
    pub fn contains(&self, value: T) -> (found: bool)
        ensures
            T::obeys_eq_spec() ==> found == seq_has(self@, value),
    {
        link_contains(&self.head, value)
    }

    /// Puts `elem` in front; what was there moves one place back.
    pub fn push(&mut self, elem: T)
        ensures
            final(self)@ == seq![elem].add(old(self)@),
            final(self).is_union(old(self), elem),
    {
        let new_node = Box::new(Node { elem, next: self.head.take() });
        self.head = Some(new_node);
        proof {
            lemma_is_union_iff_push_front(self@, old(self)@, elem);
        }
    }

    /// This list with `elem` put in front.
    pub fn union(self, elem: T) -> (list: Self)
        ensures
            list@ == seq![elem].add(self@),
            list.is_union(&self, elem),
    {
        let mut list = self;
        list.push(elem);
        list
    }

    /// Whether this list is `subset` with `elem` put in front.
    pub open spec fn spec_is_union(&self, subset: &List<T>, elem: T) -> bool {
        seq_is_union(self@, subset@, elem)
    }

    /// Whether this list is `subset` with `elem` put in front: it is one
    /// longer, begins with `elem`, and holds every element of `subset` one
    /// place further back.
    #[verifier::when_used_as_spec(spec_is_union)]
    pub fn is_union(&self, subset: &List<T>, elem: T) -> (is: bool)
        ensures
            eq_is_identity::<T>() ==> is == self.spec_is_union(subset, elem),
    {
        match &self.head {
            None => false,
            Some(node) => {
                let ghost rest = link_view(node.next);
                let first = node.elem == elem;
                let same = link_same(&node.next, &subset.head);
                proof {
                    if eq_is_identity::<T>() {
                        let prev = subset@;
                        let log = self@;
                        assert(first == (log[0] == elem));
                        if same {
                            assert forall|i: int| 0 <= i < prev.len() implies log[i + 1]
                                == #[trigger] prev[i] by {
                                assert(rest[i].eq_spec(&prev[i]));
                            }
                        }
                        if seq_is_union(log, prev, elem) {
                            assert forall|i: int| 0 <= i < rest.len() implies (#[trigger] rest[i]).eq_spec(
                                &prev[i],
                            ) by {
                                assert(log[i + 1] == prev[i]);
                            }
                        }
                    }
                }
                first && same
            },
        }
    }

    /// This list with `elem` put in front.
    pub fn add(self, elem: T) -> (list: Self)
        ensures
            list@ == seq![elem].add(self@),
            list.is_union(&self, elem),
    {
        let ghost before = self@;
        let new_node = Box::new(Node { elem, next: self.head });
        let list = List { head: Some(new_node) };
        proof {
            lemma_is_union_iff_push_front(list@, before, elem);
        }
        list
    }

    /// Whether this list and `other` hold equal elements in the same order.
    pub fn equals(&self, other: &List<T>) -> (same: bool)
        requires
            self@.len() <= usize::MAX,
            other@.len() <= usize::MAX,
        ensures
            T::obeys_eq_spec() ==> same == seq_eq(self@, other@),
    {
        let n = link_len(&self.head);
        link_eq(&self.head, &other.head, n)
    }

    /// Whether this list is `prev` without its first element.
    pub open spec fn head_removed(&self, prev: &Self) -> bool {
        seq_head_removed(self@, prev@)
    }

    /// Whether every element of `other` compares equal to some element here.
    pub fn contains_all(&self, other: &List<T>) -> (all: bool)
        ensures
            T::obeys_eq_spec() ==> all == seq_has_all(self@, other@),
    {
        link_contains_all(&self.head, &other.head)
    }

    /// Takes the newest element off, if there is one.
    pub fn try_pop(&mut self) -> (popped: Option<T>)
        ensures
            old(self)@.len() == 0 ==> popped.is_none() && final(self)@.len() == 0,
            old(self)@.len() > 0 ==> popped == Some(old(self)@[0]) && final(self)@ == old(
                self,
            )@.subrange(1, old(self)@.len() as int) && final(self).head_removed(old(self)),
    {
        match self.head.take() {
            None => None,
            Some(node) => {
                let Node { elem, next } = *node;
                self.head = next;
                proof {
                    assert(self@ =~= old(self)@.subrange(1, old(self)@.len() as int));
                    lemma_head_removed_iff_tail(self@, old(self)@);
                }
                Some(elem)
            },
        }
    }

    /// Takes the newest element off.
    pub fn pop(&mut self) -> (popped: T)
        requires
            old(self)@.len() > 0,
        ensures
            popped == old(self)@[0],
            final(self)@ == old(self)@.subrange(1, old(self)@.len() as int),
            final(self).head_removed(old(self)),
    {
        self.try_pop().unwrap()
    }

    /// The newest element.
    pub fn peek(&self) -> (elem: &T)
        requires
            self@.len() > 0,
        ensures
            *elem == self@[0],
    {
        self.lookup(0)
    }

    /// The newest element, to be changed in place; the others stay.
    pub fn peek_mut(&mut self) -> (elem: &mut T)
        requires
            old(self)@.len() > 0,
        ensures
            *elem == old(self)@[0],
            final(self)@ == old(self)@.update(0, *final(elem)),
    {
        match &mut self.head {
            Some(node) => {
                proof {
                    assert(seq![final(node).elem].add(link_view(node.next)) =~= old(self)@.update(
                        0,
                        final(node).elem,
                    ));
                }
                &mut node.elem
            },
            None => unreached(),
        }
    }
}

} // verus!
