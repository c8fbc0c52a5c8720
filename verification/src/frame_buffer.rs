//! The decisions of the frame buffer's worker: which frame iterator is current, and
//! what happens to each frame it produces.
//!
//! The worker thread itself (its channels and the shared "has provider" flag) is the
//! embedding application's part: it receives the commands, hands them to the
//! [`Provider`] and delivers the frames as told.
use vstd::prelude::*;
use crate::frame::Frame;

verus! {

/// A source of a sequence of frames, implemented by the render engines.
pub trait FrameIterator {
    type Error;

    /// There are more frames to render (what [`FrameIterator::has_next`] reports).
    spec fn more_frames(&self) -> bool;

    /// Rendering the next frame from `self` may give `result` and leave the iterator
    /// as `after` (what [`FrameIterator::next`] does).
    spec fn renders(&self, after: &Self, result: Result<Frame, Self::Error>) -> bool
        where Self: Sized;

    /// There are more frames to render.
    fn has_next(&self) -> (r: bool)
        ensures
            r == self.more_frames(),
    ;

    /// Renders and returns the next frame.
    fn next(&mut self) -> (r: Result<Frame, Self::Error>)
        where Self: Sized
        ensures
            old(self).renders(&*final(self), r),
    ;

    /// Destroying `self` may leave it as `after` (what [`FrameIterator::destroy`]
    /// does).
    spec fn destroys(&self, after: &Self) -> bool
        where Self: Sized;

    /// Releases the iterator's resources.
    fn destroy(&mut self)
        where Self: Sized
        ensures
            old(self).destroys(&*final(self)),
    ;
}

/// Commands to the frame buffer's worker.
pub enum BufferCommand<I> {
    /// Switch to a new frame iterator.
    Provide(I),
    /// Stop the current frame iterator.
    StopCurrentProvider,
}

/// The worker's current frame iterator, if any, with the "has provider" flag that the
/// worker publishes.
pub struct Provider<I> {
    iterator: Option<I>,
    has_provider: bool,
}

/// What becomes of a frame that the worker produced.
#[derive(Clone, Copy, Debug, PartialEq, Eq, Structural)]
pub struct FrameDelivery {
    /// Store the frame as the buffer's last frame (when the buffer keeps one and the
    /// frame was rendered without error).
    pub store_as_last: bool,
    /// Send the frame to the receiver.
    pub send: bool,
}

/// What [`Provider::set`] keeps of a new iterator: the iterator when it has more
/// frames, nothing otherwise.
pub open spec fn kept_if_more<I: FrameIterator>(iterator: I) -> Option<I> {
    if iterator.more_frames() {
        Some(iterator)
    } else {
        None
    }
}

impl<I: FrameIterator> Provider<I> {
    /// The current iterator.
    pub closed spec fn held(&self) -> Option<I> {
        self.iterator
    }

    /// The published "has provider" flag.
    pub closed spec fn flag(&self) -> bool {
        self.has_provider
    }

    /// The published flag tells whether an iterator is current, and a current
    /// iterator has reported that it has more frames.
    pub open spec fn consistent(&self) -> bool {
        &&& self.flag() == self.held() is Some
        &&& self.held() is Some ==> self.held()->0.more_frames()
    }

    /// A provider without an iterator; the flag is cleared.
    pub fn new() -> (r: Self)
        ensures
            r.held() is None,
            !r.flag(),
            r.consistent(),
    {
        Provider { iterator: None, has_provider: false }
    }

    /// Makes `iterator` current and sets the flag, or, when it has no frame to
    /// render, drops it, leaves no iterator current and clears the flag.
    pub fn set(&mut self, iterator: I)
        ensures
            final(self).held() == kept_if_more(iterator),
            final(self).flag() == iterator.more_frames(),
            final(self).consistent(),
    {
        if !iterator.has_next() {
            self.set_has_provider(false);
            self.iterator = None;
        } else {
            self.set_has_provider(true);
            self.iterator = Some(iterator);
        }
    }

    /// Drops the current iterator and clears the flag.
    pub fn reset(&mut self)
        ensures
            final(self).held() is None,
            !final(self).flag(),
    {
        self.set_has_provider(false);
        self.iterator = None;
    }

    /// No iterator is current.
    pub fn is_none(&self) -> (r: bool)
        ensures
            r == self.held() is None,
    {
        self.iterator.is_none()
    }

    /// An iterator is current.
    pub fn is_some(&self) -> (r: bool)
        ensures
            r == self.held() is Some,
    {
        self.iterator.is_some()
    }

    /// The published flag's value.
    pub fn has_provider(&self) -> (r: bool)
        ensures
            r == self.flag(),
    {
        self.has_provider
    }

    fn set_has_provider(&mut self, has_provider: bool)
        ensures
            final(self).has_provider == has_provider,
            final(self).iterator == old(self).iterator,
    {
        self.has_provider = has_provider;
    }

    /// The current iterator has more frames.
    pub fn has_next(&self) -> (r: bool)
        requires
            self.held() is Some,
        ensures
            r == self.held()->0.more_frames(),
    {
        match &self.iterator {
            Some(it) => it.has_next(),
            None => false,
        }
    }

    /// The next frame of the current iterator.
    pub fn next(&mut self) -> (r: Result<Frame, I::Error>)
        requires
            old(self).held() is Some,
        ensures
            final(self).held() is Some,
            final(self).flag() == old(self).flag(),
            old(self).held()->0.renders(&final(self).held()->0, r),
    {
        match &mut self.iterator {
            Some(it) => it.next(),
            None => vstd::pervasive::unreached(),
        }
    }

    /// Runs the current iterator's [`FrameIterator::destroy`], if there is one, and
    /// leaves no iterator current. The flag is left as it is.
    pub fn destroy(&mut self)
        ensures
            final(self).held() is None,
            final(self).flag() == old(self).flag(),
            old(self).held() is Some ==> exists|after: I| #[trigger] old(self).held()->0.destroys(&after),
    {
        if let Some(mut it) = self.iterator.take() {
            let ghost before = it;
            it.destroy();
            assert(before.destroys(&it));
        }
    }

    /// The worker has no iterator and has received `command` (`None`: the command
    /// channel is closed). Returns whether the worker goes on.
    pub fn handle_idle(&mut self, command: Option<BufferCommand<I>>) -> (go_on: bool)
        requires
            old(self).held() is None,
        ensures
            go_on == command is Some,
            old(self).consistent() ==> final(self).consistent(),
            match command {
                Some(BufferCommand::Provide(it)) => final(self).held() == kept_if_more(it)
                    && final(self).flag() == it.more_frames(),
                _ => *final(self) == *old(self),
            },
    {
        match command {
            Some(BufferCommand::Provide(it)) => {
                self.set(it);
                true
            },
            Some(BufferCommand::StopCurrentProvider) => true,
            None => false,
        }
    }

    /// Renders the worker's next frame. When it was the iterator's last frame, the
    /// iterator is dropped and the flag cleared. Returns the frame and whether it was
    /// the last one. The worker only renders from an iterator that reported more
    /// frames, which a consistent provider guarantees.
    pub fn produce(&mut self) -> (r: (Result<Frame, I::Error>, bool))
        requires
            old(self).held() is Some,
            old(self).held()->0.more_frames(),
        ensures
            old(self).consistent() ==> final(self).consistent(),
            r.1 ==> final(self).held() is None && !final(self).flag() && exists|after: I|
                #[trigger] old(self).held()->0.renders(&after, r.0) && !after.more_frames(),
            !r.1 ==> final(self).held() is Some && final(self).flag() == old(self).flag()
                && old(self).held()->0.renders(&final(self).held()->0, r.0)
                && final(self).held()->0.more_frames(),
    {
        let ghost before = self.held()->0;
        let frame = self.next();
        let ghost after = self.held()->0;
        let is_last = !self.has_next();
        if is_last {
            self.reset();
        }
        let r = (frame, is_last);
        proof {
            if r.1 {
                assert(before.renders(&after, r.0) && !after.more_frames());
            }
        }
        r
    }

    /// After producing a frame (`is_last` telling whether it was the iterator's last
    /// one), applies the command that arrived meanwhile, if any, and decides what
    /// becomes of the frame: a frame is sent only when no command arrived, and it is
    /// stored as the last frame when it was the last one or a command arrived.
    pub fn after_frame(
        &mut self,
        is_last: bool,
        frame_ok: bool,
        clone_last: bool,
        command: Option<BufferCommand<I>>,
    ) -> (d: FrameDelivery)
        ensures
            d.send == command is None,
            old(self).consistent() ==> final(self).consistent(),
            d.store_as_last == (clone_last && frame_ok && (is_last || command is Some)),
            match command {
                None => *final(self) == *old(self),
                Some(BufferCommand::Provide(it)) => final(self).held() == kept_if_more(it)
                    && final(self).flag() == it.more_frames(),
                Some(BufferCommand::StopCurrentProvider) => final(self).held() is None
                    && !final(self).flag(),
            },
    {
        let store_as_last = clone_last && frame_ok && (is_last || command.is_some());
        match command {
            None => FrameDelivery { store_as_last, send: true },
            Some(BufferCommand::Provide(it)) => {
                self.set(it);
                FrameDelivery { store_as_last, send: false }
            },
            Some(BufferCommand::StopCurrentProvider) => {
                self.destroy();
                self.reset();
                FrameDelivery { store_as_last, send: false }
            },
        }
    }
}

/// What `get_last_frame` answers: the stored frame when the buffer keeps its last
/// frame, otherwise an error.
pub fn last_frame_answer(clone_last: bool, stored: &Option<Frame>) -> (r: Result<Option<Frame>, ()>)
    ensures
        clone_last ==> r is Ok && (r->Ok_0 is Some <==> stored is Some),
        clone_last && stored is Some ==> r->Ok_0->0.width == stored->0.width && r->Ok_0->0.height
            == stored->0.height && r->Ok_0->0.pixels@ == stored->0.pixels@,
        !clone_last ==> r is Err,
{
    if clone_last {
        match stored {
            Some(f) => Ok(Some(Frame::new(f.width, f.height, clone_pixels(&f.pixels)))),
            None => Ok(None),
        }
    } else {
        Err(())
    }
}

fn clone_pixels(v: &Vec<u8>) -> (r: Vec<u8>)
    ensures
        r@ == v@,
{
    let mut r: Vec<u8> = Vec::new();
    let mut i: usize = 0;
    while i < v.len()
        invariant
            i <= v@.len(),
            r@ == v@.subrange(0, i as int),
        decreases v@.len() - i,
    {
        r.push(v[i]);
        i = i + 1;
    }
    proof {
        assert(v@.subrange(0, v@.len() as int) =~= v@);
    }
    r
}

} // verus!
