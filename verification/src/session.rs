//! One run of a macro that imports context.
//!
//! A run starts from what the macro received: the data passed to it (empty on
//! the first run) and its own input.  Each import names the macro that exports
//! the wanted data and is answered, in order, by the data passed in.  When an
//! import finds no answer the run is abandoned and the macro is re-invoked
//! through the macros it asked for, starting with the first unanswered one.
use vstd::prelude::*;
use crate::passer::{
    parse_context_passer, parse_passer, passer_body, passer_invocation, passer_keyword,
    InvalidPasserSyntax,
};
use crate::relay::{call_tokens, retry_call};
use crate::tokens::{
    clone_stream, streams_model, SerializedDelimiter, SerializedSpacing, SerializedTokenStream, Token,
};

verus! {

/// The bookkeeping of one macro run: the paths asked for so far, the data
/// passed in, and how many of the requests that data has answered.
pub struct ImportSession {
    requests: Vec<SerializedTokenStream>,
    inputs: Vec<SerializedTokenStream>,
    inputs_counter: usize,
}

/// The value an import received, or the lack of one.
pub struct LazyImport(Option<SerializedTokenStream>);

/// An import was evaluated that had no answer: the run must be abandoned and
/// the macro re-invoked with more context.
#[derive(Clone, Copy, Debug, PartialEq, Eq, Structural)]
pub struct MissingContext;

impl ImportSession {
    /// The paths of the macros asked for, in the order of the requests.
    pub closed spec fn requests(&self) -> Seq<Seq<Token>> {
        streams_model(self.requests@)
    }

    /// The data passed to this run, in the order it was gathered.
    pub closed spec fn inputs(&self) -> Seq<Seq<Token>> {
        streams_model(self.inputs@)
    }

    /// How many requests have been answered: each request is answered by the
    /// datum at its own position, as long as there is one.
    pub open spec fn answered(&self) -> nat {
        if self.requests().len() <= self.inputs().len() {
            self.requests().len()
        } else {
            self.inputs().len()
        }
    }

    /// The datum that will answer the next request, if the run received one.
    pub open spec fn next_answer(&self) -> Option<Seq<Token>> {
        if self.requests().len() < self.inputs().len() {
            Some(self.inputs()[self.requests().len() as int])
        } else {
            None
        }
    }

    /// The counter of answered requests agrees with the requests and inputs.
    pub closed spec fn wf(&self) -> bool {
        self.inputs_counter == self.answered()
    }

    /// Re-invokes the macro after an import found no answer.
    ///
    /// The call goes to the first unanswered request.  It passes on all the
    /// data received and the paths of the later requests, followed by `me`, the
    /// path of the macro itself, and then the macro's own input.  There is no
    /// call when every request was answered.
    pub fn retry_invocation(self, me: SerializedTokenStream, input: SerializedTokenStream) -> (r:
        Option<SerializedTokenStream>)
        requires
            self.wf(),
        ensures
            r is None <==> self.answered() == self.requests().len(),
            r matches Some(call) ==> call@ == call_tokens(retry_call(self, me@, input@)),
            r matches Some(call) ==> {
                let first = self.requests()[self.answered() as int];
                &&& call@.len() == first.len() + 2
                &&& call@.subrange(0, first.len() as int) == first
                &&& call@[first.len() as int] == Token::Punct('!', SerializedSpacing::Alone)
                &&& call@[first.len() + 1int] == Token::Group(
                    SerializedDelimiter::Brace,
                    passer_body(
                        self.inputs(),
                        self.requests().skip(self.answered() + 1int).push(me@),
                        input@,
                    ),
                )
            },
    {
        let ImportSession { requests, inputs, inputs_counter } = self;
        let mut requests = requests;
        if inputs_counter >= requests.len() {
            return None;
        }
        let ghost all = requests@;
        let mut later = requests.split_off(inputs_counter);
        let first = later.remove(0);
        proof {
            assert(streams_model(all)[inputs_counter as int] == first@);
            assert(streams_model(later@.push(me)) =~= streams_model(all).skip(inputs_counter + 1).push(
                me@,
            ));
        }
        later.push(me);
        Some(passer_invocation(first, inputs, later, input))
    }
}

/// The `k`-th request of a run, counted from zero, is answered by the datum
/// at position `k` of the data passed in, when the run received that many, and
/// is missing otherwise.
pub proof fn lemma_answer_at_own_position(session: ImportSession)
    ensures
        session.requests().len() < session.inputs().len() ==> session.next_answer() == Some(
            session.inputs()[session.requests().len() as int],
        ),
        session.requests().len() >= session.inputs().len() ==> session.next_answer() is None,
{
}

/// Starts a run from what the macro received.
///
/// Returns the session holding the data passed in, with no requests yet, and
/// the macro's own input; fails when the input starts with the context-passing
/// marker but does not follow its syntax.
pub fn begin_import(input: SerializedTokenStream) -> (r: Result<
    (ImportSession, SerializedTokenStream),
    InvalidPasserSyntax,
>)
    ensures
        match r {
            Ok((session, rest)) => {
                &&& session.wf()
                &&& session.requests() == Seq::<Seq<Token>>::empty()
                &&& parse_passer(input@) == Ok::<
                    (Seq<Seq<Token>>, Seq<Token>),
                    InvalidPasserSyntax,
                >((session.inputs(), rest@))
            },
            Err(_) => parse_passer(input@) is Err,
        },
        input@.len() == 0 || input@[0] != Token::Ident(passer_keyword()) ==> (r matches Ok(
            (session, rest),
        ) && session.inputs().len() == 0 && rest@ == input@),
{
    match parse_context_passer(input) {
        Ok((inputs, rest)) => {
            let requests: Vec<SerializedTokenStream> = Vec::new();
            let session = ImportSession { requests, inputs, inputs_counter: 0 };
            assert(session.requests() =~= Seq::<Seq<Token>>::empty());
            Ok((session, rest))
        },
        Err(e) => Err(e),
    }
}

/// Asks for the data exported by the macro at `path`.
///
/// The request is recorded; it is answered by the datum at its own position
/// among the data passed in, if the run received that many.
pub fn import(session: &mut ImportSession, path: SerializedTokenStream) -> (r: LazyImport)
    requires
        old(session).wf(),
    ensures
        final(session).wf(),
        final(session).requests() == old(session).requests().push(path@),
        final(session).inputs() == old(session).inputs(),
        r@ == old(session).next_answer(),
        old(session).requests().len() < old(session).inputs().len() ==> r@ == Some(
            old(session).inputs()[old(session).requests().len() as int],
        ),
        old(session).requests().len() >= old(session).inputs().len() ==> r@ is None,
{
    let ghost before = streams_model(session.requests@);
    session.requests.push(path);
    assert(streams_model(session.requests@) =~= before.push(path@));
    if session.inputs_counter < session.inputs.len() {
        let answer = clone_stream(&session.inputs[session.inputs_counter]);
        session.inputs_counter = session.inputs_counter + 1;
        LazyImport(Some(answer))
    } else {
        LazyImport(None)
    }
}

impl View for LazyImport {
    type V = Option<Seq<Token>>;

    closed spec fn view(&self) -> Option<Seq<Token>> {
        match self.0 {
            Some(s) => Some(s@),
            None => None,
        }
    }
}

impl LazyImport {
    /// The imported data, or `MissingContext` when the import had no answer.
    pub fn eval(self) -> (r: Result<SerializedTokenStream, MissingContext>)
        ensures
            match self@ {
                Some(s) => r matches Ok(t) && t@ == s,
                None => r is Err,
            },
    {
        match self.0 {
            Some(s) => Ok(s),
            None => Err(MissingContext),
        }
    }

    /// As `eval`, leaving the import in place.
    pub fn clone_eval(&self) -> (r: Result<SerializedTokenStream, MissingContext>)
        ensures
            match self@ {
                Some(s) => r matches Ok(t) && t@ == s,
                None => r is Err,
            },
    {
        match &self.0 {
            Some(s) => Ok(clone_stream(s)),
            None => Err(MissingContext),
        }
    }
}

} // verus!
