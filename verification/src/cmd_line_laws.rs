//! What the reading of an argument promises of its results.

use crate::addr::SocketAddr;
use crate::cmd_line::{
    join_pair, lemma_pieces_are_final, pair_is_read_back, parse_socket_addrs, pieces, split_pair,
};
use vstd::prelude::*;

verus! {

/// An argument is divided exactly where it has a comma, at its first one, and
/// what comes before it and what comes after it up to the next comma or the end
/// are the two texts.
pub proof fn argument_is_divided_at_its_commas<'a>(arg: &'a str, r: Option<(&'a str, &'a str)>)
    requires
        call_ensures(split_pair, (arg,), r),
    ensures
        r is None <==> forall|i: int| 0 <= i < arg@.len() ==> arg@[i] != ',',
        r matches Some((local, remote)) ==> {
            let taken = local@.len() + 1 + remote@.len();
            &&& forall|i: int| 0 <= i < local@.len() ==> local@[i] != ','
            &&& forall|i: int| 0 <= i < remote@.len() ==> remote@[i] != ','
            &&& taken <= arg@.len()
            &&& arg@.subrange(0, local@.len() as int) == local@
            &&& arg@[local@.len() as int] == ','
            &&& arg@.subrange(local@.len() as int + 1, taken as int) == remote@
            &&& taken < arg@.len() ==> arg@[taken as int] == ','
        },
{
    if r is Some {
        let (x, y, rest) = lemma_division(arg@);
    } else {
        assert forall|i: int| 0 <= i < arg@.len() implies arg@[i] != ',' by {
            assert(arg@.contains(arg@[i]));
        }
    }
}

/// An argument without a comma is refused, whatever the parser.
pub proof fn argument_without_a_comma_is_refused<P: Fn(&str) -> Result<SocketAddr, String>>(
    arg: &str,
    parse: P,
    r: Result<(SocketAddr, SocketAddr), String>,
)
    requires
        forall|i: int| 0 <= i < arg@.len() ==> arg@[i] != ',',
        call_ensures(parse_socket_addrs::<P>, (arg, parse), r),
    ensures
        r matches Err(e) && e@ == "must be local addr, remote addr pair"@,
{
}

/// The addresses of a pair are what the parser made of its texts, in their order.
/// An argument with two texts is refused only with a failure of the parser, that
/// of the first text before that of the second. What follows a second comma has
/// no part in it.
pub proof fn pair_is_what_the_parser_made_of_it<P: Fn(&str) -> Result<SocketAddr, String>>(
    arg: &str,
    parse: P,
    x: Seq<char>,
    y: Seq<char>,
    rest: Seq<char>,
    r: Result<(SocketAddr, SocketAddr), String>,
)
    requires
        arg@ == x + seq![','] + y + rest,
        !x.contains(','),
        !y.contains(','),
        rest.len() > 0 ==> rest[0] == ',',
        call_ensures(parse_socket_addrs::<P>, (arg, parse), r),
    ensures
        r matches Ok((local, remote)) ==> {
            &&& exists|s: &str| s@ == x && #[trigger] call_ensures(parse, (s,), Ok(local))
            &&& exists|s: &str| s@ == y && #[trigger] call_ensures(parse, (s,), Ok(remote))
        },
        r matches Err(e) ==> {
            ||| exists|s: &str| s@ == x && #[trigger] call_ensures(parse, (s,), Err(e))
            ||| {
                &&& exists|s: &str| s@ == y && #[trigger] call_ensures(parse, (s,), Err(e))
                &&& exists|s: &str, local: SocketAddr|
                    s@ == x && #[trigger] call_ensures(parse, (s,), Ok(local))
            }
        },
{
    lemma_pieces_of_pair(x, y, rest);
    assert(arg@[x.len() as int] == ',');
    assert(arg@.contains(','));
    if let Err(e) = r {
        let first = exists|s: &str| s@ == x && #[trigger] call_ensures(parse, (s,), Err(e));
        if !first {
            let local = choose|local: SocketAddr| crate::cmd_line::may_parse(parse, x, Ok(local));
            assert(crate::cmd_line::may_parse(parse, x, Ok(local)));
        }
    }
}

/// A parser that reads the two texts of an argument as two addresses gives that
/// pair, and one that cannot read a text gives its failure, that of the first
/// before that of the second.
pub proof fn result_follows_the_parser<P: Fn(&str) -> Result<SocketAddr, String>>(
    arg: &str,
    parse: P,
    x: Seq<char>,
    y: Seq<char>,
    rest: Seq<char>,
    px: Result<SocketAddr, String>,
    py: Result<SocketAddr, String>,
    r: Result<(SocketAddr, SocketAddr), String>,
)
    requires
        arg@ == x + seq![','] + y + rest,
        !x.contains(','),
        !y.contains(','),
        rest.len() > 0 ==> rest[0] == ',',
        forall|s: &str, p: Result<SocketAddr, String>|
            s@ == x && #[trigger] call_ensures(parse, (s,), p) ==> p == px,
        forall|s: &str, p: Result<SocketAddr, String>|
            s@ == y && #[trigger] call_ensures(parse, (s,), p) ==> p == py,
        call_ensures(parse_socket_addrs::<P>, (arg, parse), r),
    ensures
        px matches Ok(l) ==> (py matches Ok(t) ==> r == Ok::<(SocketAddr, SocketAddr), String>(
            (l, t),
        )),
        px matches Err(e) ==> r == Err::<(SocketAddr, SocketAddr), String>(e),
        px is Ok ==> (py matches Err(e) ==> r == Err::<(SocketAddr, SocketAddr), String>(e)),
{
    pair_is_what_the_parser_made_of_it(arg, parse, x, y, rest, r);
}

/// A pair is made only of two addresses that were read, each in its place, and
/// the failure of the local one counts first.
pub proof fn pair_needs_both_addresses(
    local: Result<SocketAddr, String>,
    remote: Result<SocketAddr, String>,
    r: Result<(SocketAddr, SocketAddr), String>,
)
    requires
        call_ensures(join_pair, (local, remote), r),
    ensures
        r is Ok <==> local is Ok && remote is Ok,
        r matches Ok(pair) ==> local == Ok::<SocketAddr, String>(pair.0) && remote == Ok::<
            SocketAddr,
            String,
        >(pair.1),
        local matches Err(e) ==> r == Err::<(SocketAddr, SocketAddr), String>(e),
        local is Ok ==> (remote matches Err(e) ==> r == Err::<(SocketAddr, SocketAddr), String>(e)),
{
}

/// The first two pieces of a text made of two texts without a comma, a comma
/// between them and nothing or a comma behind them are those two.
proof fn lemma_pieces_of_pair(x: Seq<char>, y: Seq<char>, rest: Seq<char>)
    requires
        !x.contains(','),
        !y.contains(','),
        rest.len() > 0 ==> rest[0] == ',',
    ensures
        pieces(x + seq![','] + y + rest, ',').len() >= 2,
        pieces(x + seq![','] + y + rest, ',')[0] == x,
        pieces(x + seq![','] + y + rest, ',')[1] == y,
{
    let pair = x + seq![','] + y;
    let s = pair + rest;
    pair_is_read_back(x, y);
    if rest.len() == 0 {
        assert(s == pair);
    } else {
        assert(s[pair.len() as int] == ',');
        assert(s.take(pair.len() as int) == pair);
        lemma_pieces_are_final(s, ',', pair.len() as int);
    }
}

/// Divides a text with a comma into its first two pieces and the rest.
proof fn lemma_division(s: Seq<char>) -> (r: (Seq<char>, Seq<char>, Seq<char>))
    requires
        s.contains(','),
    ensures
        s == r.0 + seq![','] + r.1 + r.2,
        forall|i: int| 0 <= i < r.0.len() ==> r.0[i] != ',',
        forall|i: int| 0 <= i < r.1.len() ==> r.1[i] != ',',
        r.2.len() > 0 ==> r.2[0] == ',',
        pieces(s, ',').len() >= 2,
        pieces(s, ',')[0] == r.0,
        pieces(s, ',')[1] == r.1,
{
    let a = lemma_first_comma(s);
    let x = s.take(a);
    let tail = s.skip(a + 1);
    let b = if tail.contains(',') {
        lemma_first_comma(tail)
    } else {
        tail.len() as int
    };
    let y = tail.take(b);
    let rest = tail.skip(b);
    assert(s == x + seq![','] + y + rest);
    assert forall|i: int| 0 <= i < y.len() implies y[i] != ',' by {
        assert(y[i] == tail[i]);
        assert(tail.contains(tail[i]));
    }
    lemma_pieces_of_pair(x, y, rest);
    (x, y, rest)
}

/// Finds the first comma.
proof fn lemma_first_comma(s: Seq<char>) -> (a: int)
    requires
        s.contains(','),
    ensures
        0 <= a < s.len(),
        s[a] == ',',
        forall|i: int| 0 <= i < a ==> s[i] != ',',
    decreases s.len(),
{
    if s[0] == ',' {
        0
    } else {
        let at = s.index_of(',');
        assert(s.skip(1)[at - 1] == ',');
        let a = lemma_first_comma(s.skip(1));
        assert forall|i: int| 0 <= i < a + 1 implies s[i] != ',' by {
            if i > 0 {
                assert(s.skip(1)[i - 1] == s[i]);
            }
        }
        a + 1
    }
}

} // verus!
