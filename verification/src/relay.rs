//! How the data reaches the macro that asked for it.
//!
//! A re-invocation calls the first unanswered macro; each macro made by
//! `export` appends its datum and calls the next path; the last path is the
//! macro that asked, which then finds all the data in its input.
use vstd::prelude::*;
use crate::passer::{macro_call, parse_passer, passer_body, wrapped, InvalidPasserSyntax};
use crate::session::ImportSession;
use crate::tokens::{SerializedDelimiter, SerializedSpacing, Token};

verus! {

/// A context-passing call
/// `target! { __import_context_passer [ {input}* (path)* ] args }`.
pub struct PasserCall {
    pub target: Seq<Token>,
    pub inputs: Seq<Seq<Token>>,
    pub paths: Seq<Seq<Token>>,
    pub args: Seq<Token>,
}

/// The tokens of a context-passing call.
pub open spec fn call_tokens(c: PasserCall) -> Seq<Token> {
    macro_call(c.target, passer_body(c.inputs, c.paths, c.args))
}

/// The call that re-invokes the macro `me` of a session through the macros it
/// asked for: the first unanswered request is called with all the data
/// received, the later requests and `me` as the paths, and the macro's input.
pub open spec fn retry_call(session: ImportSession, me: Seq<Token>, input: Seq<Token>) -> PasserCall {
    PasserCall {
        target: session.requests()[session.answered() as int],
        inputs: session.inputs(),
        paths: session.requests().skip(session.answered() + 1int).push(me),
        args: input,
    }
}

/// The re-invocation names the first unanswered request by its whole path,
/// token for token as it was recorded, then `!`, then the body in braces.
pub proof fn lemma_retry_call_starts_with_path(
    session: ImportSession,
    me: Seq<Token>,
    input: Seq<Token>,
)
    requires
        session.answered() < session.requests().len(),
    ensures
        ({
            let first = session.requests()[session.answered() as int];
            let call = call_tokens(retry_call(session, me, input));
            &&& call.len() == first.len() + 2
            &&& call.subrange(0, first.len() as int) == first
            &&& call[first.len() as int] == Token::Punct('!', SerializedSpacing::Alone)
            &&& call[first.len() + 1int] matches Token::Group(SerializedDelimiter::Brace, _)
        }),
{
    let c = retry_call(session, me, input);
    crate::passer::lemma_macro_call_shape(c.target, passer_body(c.inputs, c.paths, c.args));
}

/// What the target of a call expands to when it is a macro made by `export`
/// for `data` (the relaying rule of `export_tokens`): the first remaining
/// path is called, with `data` appended to the inputs.
pub open spec fn relay_step(c: PasserCall, data: Seq<Token>) -> PasserCall {
    PasserCall { target: c.paths[0], inputs: c.inputs.push(data), paths: c.paths.drop_first(), args: c.args }
}

/// The call reached after the targets relayed the given data, one after the other.
pub open spec fn relay(c: PasserCall, data: Seq<Seq<Token>>) -> PasserCall
    decreases data.len(),
{
    if data.len() == 0 || c.paths.len() == 0 {
        c
    } else {
        relay(relay_step(c, data[0]), data.drop_first())
    }
}

/// After `k` relays the call goes to the `k`-th path (counting the first
/// target as the zeroth), carrying the relayed data after the inputs it started with.
pub proof fn lemma_relay_shape(c: PasserCall, data: Seq<Seq<Token>>)
    requires
        data.len() <= c.paths.len(),
    ensures
        relay(c, data).target == (if data.len() == 0 {
            c.target
        } else {
            c.paths[data.len() - 1]
        }),
        relay(c, data).inputs == c.inputs + data,
        relay(c, data).paths == c.paths.skip(data.len() as int),
        relay(c, data).args == c.args,
    decreases data.len(),
{
    if data.len() == 0 {
        assert(c.inputs + data =~= c.inputs);
        assert(c.paths.skip(0) =~= c.paths);
    } else {
        let next = relay_step(c, data[0]);
        lemma_relay_shape(next, data.drop_first());
        assert(next.inputs + data.drop_first() =~= c.inputs + data);
        assert(next.paths.skip(data.drop_first().len() as int) =~= c.paths.skip(data.len() as int));
    }
}

/// A call that carries no more paths hands its inputs and its arguments,
/// unchanged, to the macro it calls.
pub proof fn lemma_passer_roundtrip(inputs: Seq<Seq<Token>>, args: Seq<Token>)
    ensures
        parse_passer(passer_body(inputs, Seq::empty(), args)) == Ok::<
            (Seq<Seq<Token>>, Seq<Token>),
            InvalidPasserSyntax,
        >((inputs, args)),
{
    let body = passer_body(inputs, Seq::empty(), args);
    let inner = wrapped(SerializedDelimiter::Brace, inputs) + wrapped(
        SerializedDelimiter::Parenthesis,
        Seq::empty(),
    );
    assert(inner =~= wrapped(SerializedDelimiter::Brace, inputs));
    assert(body[1] == Token::Group(SerializedDelimiter::Bracket, inner));
    assert(crate::passer::group_streams(inner) =~= inputs);
    assert(body.skip(2) =~= args);
}

/// Every request of a run is answered by the datum of the macro it names.
///
/// Take a run that stopped at an unanswered request, where each answered
/// request `k` got `exported(requests[k])`.  The re-invocation visits the
/// unanswered requests in order, each relaying its own datum, and ends at
/// `me`.  What `me` then receives parses into its own input and data in
/// which the datum at every request's position is the datum of the macro that
/// request names.
pub proof fn lemma_context_delivered(
    session: ImportSession,
    me: Seq<Token>,
    input: Seq<Token>,
    exported: spec_fn(Seq<Token>) -> Seq<Token>,
)
    requires
        session.answered() < session.requests().len(),
        forall|k: int|
            0 <= k < session.answered() ==> session.inputs()[k] == exported(session.requests()[k]),
    ensures
        ({
            let a = session.answered() as int;
            let n = session.requests().len() - a;
            let data = Seq::new(n as nat, |j: int| exported(session.requests()[a + j]));
            let end = relay(retry_call(session, me, input), data);
            &&& forall|j: int|
                0 <= j < n ==> #[trigger] relay(retry_call(session, me, input), data.take(j)).target
                    == session.requests()[a + j]
            &&& end.target == me
            &&& end.paths.len() == 0
            &&& parse_passer(passer_body(end.inputs, end.paths, end.args)) == Ok::<
                (Seq<Seq<Token>>, Seq<Token>),
                InvalidPasserSyntax,
            >((session.inputs() + data, input))
            &&& (session.inputs() + data).len() == session.requests().len()
            &&& forall|k: int|
                0 <= k < session.requests().len() ==> #[trigger] (session.inputs() + data)[k]
                    == exported(session.requests()[k])
        }),
{
    let a = session.answered() as int;
    let n = session.requests().len() - a;
    let data = Seq::new(n as nat, |j: int| exported(session.requests()[a + j]));
    let c = retry_call(session, me, input);
    assert(session.inputs().len() == a);
    assert(c.paths.len() == n);
    assert forall|j: int| 0 <= j < n implies #[trigger] relay(c, data.take(j)).target
        == session.requests()[a + j] by {
        lemma_relay_shape(c, data.take(j));
    }
    lemma_relay_shape(c, data);
    assert(c.paths[n - 1] == me);
    let end = relay(c, data);
    assert(end.paths =~= Seq::<Seq<Token>>::empty());
    lemma_passer_roundtrip(end.inputs, end.args);
    assert forall|k: int| 0 <= k < session.requests().len() implies #[trigger] (session.inputs()
        + data)[k] == exported(session.requests()[k]) by {
        if k >= a {
            assert(data[k - a] == exported(session.requests()[a + (k - a)]));
        }
    }
}

} // verus!
