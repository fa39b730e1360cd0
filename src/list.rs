use vstd::prelude::*;

verus! {

/// A link to the next node of the chain, or nothing at its end.
type Link<T> = Option<Box<Node<T>>>;

struct Node<T> {
    elem: T,
    next: Link<T>,
}

/// The elements held by a chain of nodes, from the given link to its end.
spec fn link_seq<T>(link: Link<T>) -> Seq<T>
    decreases link,
{
    match link {
        None => Seq::empty(),
        Some(node) => seq![node.elem] + link_seq(node.next),
    }
}

/// A stack kept as a chain of owned nodes; the head node is the top.
pub struct List<T> {
    head: Link<T>,
}

impl<T> View for List<T> {
    type V = Seq<T>;

    /// The elements of the stack, the top first.
    closed spec fn view(&self) -> Seq<T> {
        link_seq(self.head)
    }
}

impl<T> List<T> {
    /// An empty stack.
    pub fn new() -> (r: Self)
        ensures
            r@ == Seq::<T>::empty(),
    {
        List { head: None }
    }

    /// Puts `elem` on top of the stack.
    pub fn push(&mut self, elem: T)
        ensures
            final(self)@ == seq![elem] + old(self)@,
    {
        let new_node = Box::new(Node { elem: elem, next: self.head.take() });
        self.head = Some(new_node);
    }

    /// Removes the top element and hands it out; `None` on an empty stack,
    /// which is then left as it was.
    pub fn pop(&mut self) -> (r: Option<T>)
        ensures
            old(self)@.len() == 0 ==> r is None && final(self)@ == old(self)@,
            old(self)@.len() > 0 ==> r == Some(old(self)@[0]) && final(self)@
                == old(self)@.drop_first(),
    {
        match self.head.take() {
            None => None,
            Some(node) => {
                let node = *node;
                self.head = node.next;
                Some(node.elem)
            },
        }
    }

    /// The top element, or `None` on an empty stack.
    pub fn peek(&self) -> (r: Option<&T>)
        ensures
            self@.len() == 0 ==> r is None,
            self@.len() > 0 ==> r is Some && *r->0 == self@[0],
    {
        match &self.head {
            None => None,
            Some(node) => Some(&node.elem),
        }
    }

    /// The top element for update in place, or `None` on an empty stack.
    /// Whatever is written through the reference becomes the new top; the
    /// rest of the stack is kept.
    pub fn peek_mut(&mut self) -> (r: Option<&mut T>)
        ensures
            old(self)@.len() == 0 ==> r is None && final(self)@ == old(self)@,
            old(self)@.len() > 0 ==> r is Some && *r->0 == old(self)@[0] && final(self)@
                == old(self)@.update(0, *final(r->0)),
    {
        match &mut self.head {
            None => None,
            Some(node) => Some(&mut node.elem),
        }
    }
}

impl<T> Drop for List<T> {
    /// Releases the nodes one at a time from the head. Each node is unlinked
    /// from its successor before it is freed, so that a long chain is
    /// released by this loop and not by nested destructor calls. The stack
    /// is left empty, so nothing of the chain remains for the fields'
    /// own destructors.
    fn drop(&mut self)
        ensures
            final(self)@ == Seq::<T>::empty(),
        opens_invariants none
        no_unwind
    {
        let mut cur_link: Link<T> = None;
        core::mem::swap(&mut cur_link, &mut self.head);
        loop
            decreases link_seq(cur_link).len(),
        {
            match cur_link {
                None => break,
                Some(mut boxed_node) => {
                    let mut next: Link<T> = None;
                    core::mem::swap(&mut next, &mut boxed_node.next);
                    cur_link = next;
                },
            }
        }
    }
}

} // verus!
