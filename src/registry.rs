use vstd::prelude::*;

verus! {

/// The slot for the one fetch callback of a process, held as its address.
/// It goes from empty to filled once, and stays filled.
#[derive(Clone, Copy)]
pub struct CallbackSlot {
    callback: Option<usize>,
}

/// A second registration, refused; the slot keeps `current`.
pub struct AlreadyInitialized {
    pub current: usize,
}

impl View for CallbackSlot {
    type V = Option<usize>;

    closed spec fn view(&self) -> Option<usize> {
        self.callback
    }
}

/// The slot after an attempt to register `callback`: an empty slot takes
/// it, a filled one is left as it was.
pub open spec fn after_register(slot: Option<usize>, callback: usize) -> Option<usize> {
    match slot {
        None => Some(callback),
        Some(c) => Some(c),
    }
}

impl CallbackSlot {
    pub fn new() -> (r: CallbackSlot)
        ensures
            r@ is None,
    {
        CallbackSlot { callback: None }
    }

    /// The registered callback, if any.
    pub fn get(&self) -> (r: Option<usize>)
        ensures
            r == self@,
    {
        self.callback
    }

    /// Registers `callback`; refused when one is already registered.
    pub fn register(&mut self, callback: usize) -> (r: Result<(), AlreadyInitialized>)
        requires
            callback != 0,
        ensures
            final(self)@ == after_register(old(self)@, callback),
            r is Ok <==> old(self)@ is None,
            r matches Err(e) ==> old(self)@ == Some(e.current),
    {
        match self.callback {
            None => {
                self.callback = Some(callback);
                Ok(())
            },
            Some(c) => Err(AlreadyInitialized { current: c }),
        }
    }
}

/// Install-once: the first registration into an empty slot takes effect,
/// and any registration after it is refused and leaves that callback in place.
pub proof fn lemma_install_once(first: usize, later: usize)
    requires
        first != 0,
        later != 0,
    ensures
        after_register(None, first) == Some(first),
        after_register(after_register(None, first), later) == Some(first),
        !(after_register(None, first) is None),
{
}

} // verus!
