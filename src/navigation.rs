use vstd::prelude::*;

verus! {

/// Why a navigation command left the breadcrumb as it was.
#[derive(PartialEq, Eq, Structural, Clone, Copy, Debug)]
pub enum NavigationError {
    /// The current directory holds no entry of the requested name.
    NotFound,
}

/// The breadcrumb of directories from the root to the current one, and the
/// generation counter of navigations that changed it.
pub struct Navigator<D> {
    stack: Vec<D>,
    generation: u64,
}

impl<D> Navigator<D> {
    /// The directories from the root (first) to the current one (last).
    pub closed spec fn stack(&self) -> Seq<D> {
        self.stack@
    }

    /// How many navigations have changed the breadcrumb.
    pub closed spec fn gen(&self) -> u64 {
        self.generation
    }

    /// The breadcrumb is never empty.
    pub open spec fn wf(&self) -> bool {
        self.stack().len() >= 1
    }

    /// A breadcrumb at the root, generation 0.
    pub fn new(root: D) -> (r: Navigator<D>)
        ensures
            r.wf(),
            r.stack() == seq![root],
            r.gen() == 0,
    {
        Navigator { stack: vec![root], generation: 0 }
    }

    /// Number of directories on the breadcrumb; 1 at the root.
    pub fn depth(&self) -> (r: usize)
        ensures
            r == self.stack().len(),
    {
        self.stack.len()
    }

    /// The generation of the current breadcrumb.
    pub fn generation(&self) -> (r: u64)
        ensures
            r == self.gen(),
    {
        self.generation
    }

    /// The directory the breadcrumb ends in.
    pub fn current(&self) -> (r: &D)
        requires
            self.wf(),
        ensures
            *r == self.stack().last(),
    {
        &self.stack[self.stack.len() - 1]
    }

    /// Enters the subdirectory the lookup of a name found, if it found one.
    /// A miss changes nothing, not even the generation, and is reported.
    pub fn enter_directory(&mut self, found: Option<D>) -> (r: Result<(), NavigationError>)
        requires
            old(self).wf(),
            old(self).gen() < u64::MAX,
        ensures
            final(self).wf(),
            r is Ok <==> found is Some,
            r is Err ==> r == Err::<(), NavigationError>(NavigationError::NotFound),
            match found {
                Some(d) => final(self).stack() == old(self).stack().push(d) && final(self).gen()
                    == old(self).gen() + 1,
                None => *final(self) == *old(self),
            },
    {
        match found {
            Some(d) => {
                self.stack.push(d);
                self.generation = self.generation + 1;
                Ok(())
            },
            None => Err(NavigationError::NotFound),
        }
    }

    /// Goes up to the parent directory; at the root nothing changes, not
    /// even the generation. Returns whether the breadcrumb changed.
    pub fn move_to_parent(&mut self) -> (changed: bool)
        requires
            old(self).wf(),
            old(self).gen() < u64::MAX,
        ensures
            final(self).wf(),
            changed == (old(self).stack().len() > 1),
            changed ==> final(self).stack() == old(self).stack().drop_last() && final(self).gen()
                == old(self).gen() + 1,
            !changed ==> *final(self) == *old(self),
    {
        if self.stack.len() > 1 {
            self.stack.pop();
            self.generation = self.generation + 1;
            true
        } else {
            false
        }
    }
}

} // verus!
