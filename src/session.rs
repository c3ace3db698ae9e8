use vstd::prelude::*;
use crate::model::BootstrapError;

verus! {

/// A driver object that the session creates and must destroy explicitly.
#[derive(Clone, Copy, Debug, PartialEq, Eq, Structural)]
pub enum Handle {
    Instance,
    Surface,
    Device,
}

/// The order in which a session acquires its handles.
pub open spec fn acquisition_order() -> Seq<Handle> {
    seq![Handle::Instance, Handle::Surface, Handle::Device]
}

/// The handles a session holds, oldest first. They are acquired in the
/// fixed order instance, surface, device, and given back newest first.
pub struct HandleStack {
    held: Vec<Handle>,
}

impl HandleStack {
    pub closed spec fn view(&self) -> Seq<Handle> {
        self.held@
    }

    /// What is held is a prefix of the acquisition order.
    pub open spec fn wf(&self) -> bool {
        &&& self.view().len() <= 3
        &&& forall|i: int| 0 <= i < self.view().len() ==> self.view()[i] == acquisition_order()[i]
    }

    /// A session that holds nothing yet.
    pub fn new() -> (r: HandleStack)
        ensures
            r.wf(),
            r.view() == Seq::<Handle>::empty(),
    {
        HandleStack { held: Vec::new() }
    }

    /// The handle to create next, or `None` once all are held.
    pub fn next_to_acquire(&self) -> (r: Option<Handle>)
        requires
            self.wf(),
        ensures
            self.view().len() < 3 ==> r == Some(acquisition_order()[self.view().len() as int]),
            self.view().len() == 3 ==> r == None::<Handle>,
    {
        let n = self.held.len();
        if n == 0 {
            Some(Handle::Instance)
        } else if n == 1 {
            Some(Handle::Surface)
        } else if n == 2 {
            Some(Handle::Device)
        } else {
            None
        }
    }

    /// Records that `h`, the next handle in acquisition order, was created.
    pub fn acquired(&mut self, h: Handle)
        requires
            old(self).wf(),
            old(self).view().len() < 3,
            h == acquisition_order()[old(self).view().len() as int],
        ensures
            final(self).wf(),
            final(self).view() == old(self).view().push(h),
    {
        self.held.push(h);
    }

    /// The handle to destroy next: the newest one held.
    pub fn next_release(&self) -> (r: Option<Handle>)
        ensures
            self.view().len() == 0 ==> r == None::<Handle>,
            self.view().len() > 0 ==> r == Some(self.view().last()),
    {
        let n = self.held.len();
        if n == 0 {
            None
        } else {
            Some(self.held[n - 1])
        }
    }

    /// Records that the newest handle was destroyed.
    pub fn released(&mut self)
        requires
            old(self).wf(),
            old(self).view().len() > 0,
        ensures
            final(self).wf(),
            final(self).view() == old(self).view().drop_last(),
    {
        self.held.pop();
    }

    /// The handles to destroy, in the order to destroy them: the reverse of
    /// the order in which they were acquired.
    pub fn teardown_order(&self) -> (r: Vec<Handle>)
        ensures
            r@ == self.view().reverse(),
    {
        let mut r: Vec<Handle> = Vec::new();
        let mut k: usize = self.held.len();
        while k > 0
            invariant
                k <= self.held@.len(),
                r@ == self.held@.subrange(k as int, self.held@.len() as int).reverse(),
            decreases k,
        {
            k = k - 1;
            r.push(self.held[k]);
            proof {
                assert(r@ =~= self.held@.subrange(k as int, self.held@.len() as int).reverse());
            }
        }
        assert(self.held@.subrange(0, self.held@.len() as int) =~= self.held@);
        r
    }
}

/// The error that ends a session when creating `h` fails.
pub fn creation_failure(h: Handle) -> (r: BootstrapError)
    ensures
        h == Handle::Surface ==> r == BootstrapError::SurfaceCreationFailed,
        h != Handle::Surface ==> r == BootstrapError::ContextCreationFailed,
{
    match h {
        Handle::Surface => BootstrapError::SurfaceCreationFailed,
        _ => BootstrapError::ContextCreationFailed,
    }
}

/// Destroying handles one at a time, newest first, gives them back in the
/// reverse of their acquisition order: after `n` releases, what remains is
/// the oldest part, and what went is the reversed newest part.
pub proof fn lemma_release_reverses(held: Seq<Handle>, n: nat)
    requires
        n <= held.len(),
    ensures
        release_steps(held, n) == held.reverse().subrange(0, n as int),
    decreases n,
{
    if n > 0 {
        lemma_release_reverses(held.drop_last(), (n - 1) as nat);
        assert(release_steps(held, n) =~= held.reverse().subrange(0, n as int));
    }
}

/// The handles named by `n` successive `next_release` calls, each followed
/// by `released`, starting from `held`.
pub open spec fn release_steps(held: Seq<Handle>, n: nat) -> Seq<Handle>
    decreases n,
{
    if n == 0 || held.len() == 0 {
        Seq::empty()
    } else {
        seq![held.last()] + release_steps(held.drop_last(), (n - 1) as nat)
    }
}

} // verus!
