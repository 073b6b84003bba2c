//! Stages built from mailboxes alone.
use vstd::prelude::*;
use crate::mailbox::Offered;
use crate::mailbox::Received;
use crate::mailbox::Receiver;
use crate::mailbox::Sender;

verus! {

/// What one turn of a stage came to, and so what the stage waits for next.
#[derive(Clone, Copy, Debug, PartialEq, Eq, Structural)]
pub enum Turn {
    /// A message went through. Take another turn.
    Moved,
    /// The input has nothing now. Wait for a message.
    Idle,
    /// The output has no room now. The stage holds the message; wait for
    /// room.
    Blocked,
    /// The input is closed and nothing is held: the stage ends, and by
    /// letting go of its output passes the closing on.
    Done,
    /// The output is closed: the stage fails. The message that could not be
    /// delivered is still held.
    Failed,
}

/// What an offer to the output means for the stage.
pub open spec fn turn_after<O>(offered: Offered<O>) -> Turn {
    match offered {
        Offered::Sent => Turn::Moved,
        Offered::Full(_) => Turn::Blocked,
        Offered::Closed(_) => Turn::Failed,
    }
}

/// Settle an offer: say what the stage still holds, which is the message if
/// it came back, and what it does next.
pub fn settle<O>(offered: Offered<O>) -> (out: (Option<O>, Turn))
    ensures
        out.0 == offered.returned(),
        out.1 == turn_after(offered),
{
    match offered {
        Offered::Sent => (None, Turn::Moved),
        Offered::Full(o) => (Some(o), Turn::Blocked),
        Offered::Closed(o) => (Some(o), Turn::Failed),
    }
}

/// A stage that receives input of type `I`, transforms it to type `O`, and
/// writes it to a sender. It ends when its input is closed.
#[verifier::reject_recursive_types(I)]
#[verifier::reject_recursive_types(Rx)]
#[verifier::reject_recursive_types(O)]
#[verifier::reject_recursive_types(Tx)]
#[verifier::reject_recursive_types(F)]
pub struct MapStage<I, Rx, O, Tx, F> where
    I: std::fmt::Debug + Sync + Send + 'static,
    Rx: Receiver<I>,
    O: std::fmt::Debug + Sync + Send + 'static,
    Tx: Sender<O>,
    F: Fn(I) -> O + Sync + Send + 'static,
 {
    input: Rx,
    output: Tx,
    func: F,
    held: Option<O>,
    _io: std::marker::PhantomData<I>,
}

/// Make the stage that reads from `input`, applies `func`, and writes to
/// `output`. It starts with nothing in hand.
pub fn map<I, Rx, O, Tx, F>(input: Rx, output: Tx, func: F) -> (stage: MapStage<I, Rx, O, Tx, F>) where
    I: std::fmt::Debug + Sync + Send + 'static,
    Rx: Receiver<I>,
    O: std::fmt::Debug + Sync + Send + 'static,
    Tx: Sender<O>,
    F: Fn(I) -> O + Sync + Send + 'static,

    ensures
        stage.holding() is None,
        stage.func() == func,
{
    MapStage { input, output, func, held: None, _io: std::marker::PhantomData }
}

impl<I, Rx, O, Tx, F> MapStage<I, Rx, O, Tx, F> where
    I: std::fmt::Debug + Sync + Send + 'static,
    Rx: Receiver<I>,
    O: std::fmt::Debug + Sync + Send + 'static,
    Tx: Sender<O>,
    F: Fn(I) -> O + Sync + Send + 'static,
 {
    /// The transformed message that waits for room in the output, if any.
    pub closed spec fn holding(&self) -> Option<O> {
        self.held
    }

    /// The function that the stage applies.
    pub closed spec fn func(&self) -> F {
        self.func
    }

    /// Whether a transformed message waits for room in the output.
    pub fn is_holding(&self) -> (b: bool)
        ensures
            b == (self.holding() is Some),
    {
        self.held.is_some()
    }

    /// Offer `o` to the output and settle the offer.
    fn deliver(&mut self, o: O) -> (turn: Turn)
        ensures
            final(self).func() == old(self).func(),
            turn is Moved <==> final(self).holding() is None,
            turn is Moved || turn is Blocked || turn is Failed,
            final(self).holding() is Some ==> final(self).holding() == Some(o),
    {
        let offered = self.output.try_send(o);
        let (held, turn) = settle(offered);
        self.held = held;
        turn
    }

    /// Take one turn: first try to get rid of a held message; with nothing
    /// held, take the next input, apply the function, and offer the result.
    /// Whatever the mailboxes answer, the stage holds a message afterwards
    /// exactly if the output refused one.
    pub fn turn(&mut self) -> (turn: Turn)
        requires
            forall|i: I| old(self).func().requires((i,)),
        ensures
            final(self).func() == old(self).func(),
            turn is Blocked || turn is Failed <==> final(self).holding() is Some,
            old(self).holding() is Some ==> turn is Moved || turn is Blocked || turn is Failed,
            old(self).holding() is Some && final(self).holding() is Some ==> final(self).holding()
                == old(self).holding(),
            old(self).holding() is None && final(self).holding() is Some ==> exists|i: I|
                old(self).func().ensures((i,), final(self).holding()->Some_0),
    {
        match self.held.take() {
            Some(o) => self.deliver(o),
            None => {
                let received = self.input.try_recv();
                let ghost got = received;
                assert(self.func == old(self).func());
                match transform(received, &self.func) {
                    Ok(o) => {
                        let ghost made = o;
                        let turn = self.deliver(o);
                        proof {
                            let m = got->Message_0;
                            if self.holding() is Some {
                                assert(self.holding()->Some_0 == made);
                                assert(old(self).func().ensures((m,), self.holding()->Some_0));
                            }
                        }
                        turn
                    },
                    Err(turn) => turn,
                }
            },
        }
    }
}

/// Apply the stage's function to what the input gave. A message is
/// transformed; an empty input leaves the stage idle; a closed input ends it.
pub fn transform<I, O, F>(received: Received<I>, func: &F) -> (out: Result<O, Turn>) where
    F: Fn(I) -> O,

    requires
        forall|i: I| func.requires((i,)),
    ensures
        match received {
            Received::Message(m) => out is Ok && func.ensures((m,), out->Ok_0),
            Received::Empty => out == Err::<O, Turn>(Turn::Idle),
            Received::Closed => out == Err::<O, Turn>(Turn::Done),
        },
{
    match received {
        Received::Message(m) => Ok(func(m)),
        Received::Empty => Err(Turn::Idle),
        Received::Closed => Err(Turn::Done),
    }
}

} // verus!
