//! The command line: pairs of a local and a remote address.

use crate::addr::SocketAddr;
use vstd::prelude::*;

verus! {

/// What the forwarder is asked to do.
#[derive(Debug)]
pub struct InputArgs {
    /// Pairs of the address to listen on and the address to forward to.
    pub local_remote: Vec<(SocketAddr, SocketAddr)>,
}

/// The pieces that `sep` divides `s` into, with the last one to the end of `s`.
pub open spec fn pieces(s: Seq<char>, sep: char) -> Seq<Seq<char>>
    decreases s.len(),
{
    if s.len() == 0 {
        seq![Seq::empty()]
    } else {
        let before = pieces(s.drop_last(), sep);
        if s.last() == sep {
            before.push(Seq::empty())
        } else {
            before.drop_last().push(before.last().push(s.last()))
        }
    }
}

/// The message for an argument without a comma.
pub open spec fn no_pair_message() -> Seq<char> {
    "must be local addr, remote addr pair"@
}

/// The texts of the local and the remote address in `arg`: its first two
/// pieces between commas.
pub fn split_pair<'a>(arg: &'a str) -> (r: Option<(&'a str, &'a str)>)
    ensures
        r is Some <==> arg@.contains(','),
        r matches Some((local, remote)) ==> {
            &&& pieces(arg@, ',').len() >= 2
            &&& local@ == pieces(arg@, ',')[0]
            &&& remote@ == pieces(arg@, ',')[1]
        },
{
    let len = arg.unicode_len();
    let mut comma: Option<usize> = None;
    let mut i: usize = 0;
    assert(arg@.take(0) == Seq::<char>::empty());
    while i < len
        invariant
            i <= len == arg@.len(),
            match comma {
                None => pieces(arg@.take(i as int), ',') == seq![arg@.take(i as int)] && !arg@.take(
                    i as int,
                ).contains(','),
                Some(c) => c < i && arg@[c as int] == ',' && pieces(arg@.take(i as int), ',')
                    == seq![arg@.take(c as int), arg@.subrange(c + 1, i as int)],
            },
        decreases len - i,
    {
        assert(arg@.take(i + 1).drop_last() == arg@.take(i as int));
        assert(arg@.take(i + 1) == arg@.take(i as int).push(arg@[i as int]));
        if arg.get_char(i) == ',' {
            if let Some(c) = comma {
                proof {
                    lemma_pieces_are_final(arg@, ',', i as int);
                }
                return Some((arg.substring_char(0, c), arg.substring_char(c + 1, i)));
            }
            comma = Some(i);
            assert(arg@.subrange(i + 1, i + 1) == Seq::<char>::empty());
        } else if let Some(c) = comma {
            assert(arg@.subrange(c + 1, i + 1) == arg@.subrange(c + 1, i as int).push(
                arg@[i as int],
            ));
        }
        i = i + 1;
    }
    assert(arg@.take(len as int) == arg@);
    match comma {
        Some(c) => Some((arg.substring_char(0, c), arg.substring_char(c + 1, len))),
        None => None,
    }
}

/// Joins the two addresses of a pair as they were read, the failure of the
/// local one first.
pub fn join_pair(local: Result<SocketAddr, String>, remote: Result<SocketAddr, String>) -> (r:
    Result<(SocketAddr, SocketAddr), String>)
    ensures
        r == match (local, remote) {
            (Err(e), _) => Err::<(SocketAddr, SocketAddr), String>(e),
            (Ok(_), Err(e)) => Err(e),
            (Ok(l), Ok(t)) => Ok((l, t)),
        },
{
    match (local, remote) {
        (Err(e), _) => Err(e),
        (Ok(_), Err(e)) => Err(e),
        (Ok(l), Ok(t)) => Ok((l, t)),
    }
}

/// `parse` may give `result` for an address whose text is `text`.
pub open spec fn may_parse<P: Fn(&str) -> Result<SocketAddr, String>>(
    parse: P,
    text: Seq<char>,
    result: Result<SocketAddr, String>,
) -> bool {
    exists|s: &str| s@ == text && call_ensures(parse, (s,), result)
}

/// `r` may come of reading the argument `arg` with `parse`: an argument without
/// a comma is refused, of any other the first two pieces are parsed, and the
/// failure of the first comes before that of the second.
pub open spec fn reads_as<P: Fn(&str) -> Result<SocketAddr, String>>(
    parse: P,
    arg: Seq<char>,
    r: Result<(SocketAddr, SocketAddr), String>,
) -> bool {
    let texts = pieces(arg, ',');
    if !arg.contains(',') {
        r matches Err(e) && e@ == no_pair_message()
    } else {
        &&& texts.len() >= 2
        &&& match r {
            Ok((local, remote)) => may_parse(parse, texts[0], Ok(local)) && may_parse(
                parse,
                texts[1],
                Ok(remote),
            ),
            Err(e) => may_parse(parse, texts[0], Err(e)) || (may_parse(parse, texts[1], Err(e))
                && exists|local: SocketAddr| may_parse(parse, texts[0], Ok(local))),
        }
    }
}

/// Reads one argument, `local,remote`, with `parse` to read an address. What
/// follows a second comma is ignored.
pub fn parse_socket_addrs<P: Fn(&str) -> Result<SocketAddr, String>>(arg: &str, parse: P) -> (r:
    Result<(SocketAddr, SocketAddr), String>)
    requires
        forall|s: &str| call_requires(parse, (s,)),
    ensures
        reads_as(parse, arg@, r),
{
    match split_pair(arg) {
        None => Err(String::from_str("must be local addr, remote addr pair")),
        Some((local_addr, remote_addr)) => {
            let ghost texts = pieces(arg@, ',');
            let local = match parse(local_addr) {
                Ok(local) => local,
                Err(e) => {
                    assert(may_parse(parse, texts[0], Err(e)));
                    return Err(e);
                },
            };
            assert(may_parse(parse, texts[0], Ok(local)));
            let remote = parse(remote_addr);
            assert(may_parse(parse, texts[1], remote));
            join_pair(Ok(local), remote)
        },
    }
}

/// An argument made of two addresses and a comma is read as those two.
pub proof fn pair_is_read_back(local: Seq<char>, remote: Seq<char>)
    requires
        !local.contains(','),
        !remote.contains(','),
    ensures
        pieces(local + seq![','] + remote, ',') == seq![local, remote],
    decreases remote.len(),
{
    let arg = local + seq![','] + remote;
    if remote.len() == 0 {
        lemma_single_piece(local, ',');
        assert(arg.drop_last() == local);
        assert(arg.last() == ',');
        assert(remote == Seq::<char>::empty());
    } else {
        let shorter = remote.drop_last();
        assert(arg.drop_last() == local + seq![','] + shorter);
        assert(remote[remote.len() - 1] != ',');
        assert(arg.last() == remote.last());
        assert(!shorter.contains(',')) by {
            assert forall|i: int| 0 <= i < shorter.len() implies shorter[i] != ',' by {
                assert(remote[i] == shorter[i]);
            }
        }
        pair_is_read_back(local, shorter);
        assert(shorter.push(remote.last()) == remote);
    }
}

/// What follows a second comma does not change what is read.
pub proof fn surplus_is_ignored<P: Fn(&str) -> Result<SocketAddr, String>>(
    parse: P,
    arg: Seq<char>,
    surplus: Seq<char>,
    r: Result<(SocketAddr, SocketAddr), String>,
)
    requires
        arg.contains(','),
    ensures
        reads_as(parse, arg + seq![','] + surplus, r) <==> reads_as(parse, arg, r),
{
    let longer = arg + seq![','] + surplus;
    assert(longer[arg.len() as int] == ',');
    assert(longer.take(arg.len() as int) == arg);
    lemma_pieces_are_final(longer, ',', arg.len() as int);
    lemma_two_pieces(arg, ',');
}

/// Two addresses given in the other order are read in the other order.
pub proof fn swapped_pair_is_read_swapped<P: Fn(&str) -> Result<SocketAddr, String>>(
    parse: P,
    x: Seq<char>,
    y: Seq<char>,
    l: SocketAddr,
    t: SocketAddr,
)
    requires
        !x.contains(','),
        !y.contains(','),
    ensures
        reads_as(parse, x + seq![','] + y, Ok((l, t))) <==> reads_as(
            parse,
            y + seq![','] + x,
            Ok((t, l)),
        ),
{
    pair_is_read_back(x, y);
    pair_is_read_back(y, x);
    assert((x + seq![','] + y)[x.len() as int] == ',');
    assert((y + seq![','] + x)[y.len() as int] == ',');
}

/// `parse` gives one result for each text.
pub open spec fn single_valued<P: Fn(&str) -> Result<SocketAddr, String>>(parse: P) -> bool {
    forall|text: Seq<char>, a: Result<SocketAddr, String>, b: Result<SocketAddr, String>|
        #[trigger] may_parse(parse, text, a) && #[trigger] may_parse(parse, text, b) ==> a == b
}

/// A parser that gives one result for each text makes one result of an argument
/// with a comma, and the same one of that argument with a comma and more text
/// behind it.
pub proof fn surplus_changes_no_result<P: Fn(&str) -> Result<SocketAddr, String>>(
    parse: P,
    arg: Seq<char>,
    surplus: Seq<char>,
    r: Result<(SocketAddr, SocketAddr), String>,
    longer: Result<(SocketAddr, SocketAddr), String>,
)
    requires
        single_valued(parse),
        arg.contains(','),
        reads_as(parse, arg, r),
        reads_as(parse, arg + seq![','] + surplus, longer),
    ensures
        longer == r,
{
    surplus_is_ignored(parse, arg, surplus, longer);
}

/// With a parser that gives one result for each text, swapping the two texts of
/// an argument swaps the addresses of its result.
pub proof fn swapping_swaps_the_result<P: Fn(&str) -> Result<SocketAddr, String>>(
    parse: P,
    x: Seq<char>,
    y: Seq<char>,
    r: Result<(SocketAddr, SocketAddr), String>,
    swapped: Result<(SocketAddr, SocketAddr), String>,
    l: SocketAddr,
    t: SocketAddr,
)
    requires
        single_valued(parse),
        !x.contains(','),
        !y.contains(','),
        reads_as(parse, x + seq![','] + y, r),
        reads_as(parse, y + seq![','] + x, swapped),
    ensures
        r == Ok::<(SocketAddr, SocketAddr), String>((l, t)) <==> swapped == Ok::<
            (SocketAddr, SocketAddr),
            String,
        >((t, l)),
{
    pair_is_read_back(x, y);
    pair_is_read_back(y, x);
    assert((x + seq![','] + y)[x.len() as int] == ',');
    assert((y + seq![','] + x)[y.len() as int] == ',');
}

/// Two addresses printed with a comma between them are read back, if `parse`
/// reads back each of them and neither print holds a comma.
pub proof fn printed_pair_is_read_back<P: Fn(&str) -> Result<SocketAddr, String>>(
    parse: P,
    local: SocketAddr,
    local_text: Seq<char>,
    remote: SocketAddr,
    remote_text: Seq<char>,
    r: Result<(SocketAddr, SocketAddr), String>,
)
    requires
        !local_text.contains(','),
        !remote_text.contains(','),
        forall|x: Result<SocketAddr, String>|
            may_parse(parse, local_text, x) ==> x == Ok::<SocketAddr, String>(local),
        forall|x: Result<SocketAddr, String>|
            may_parse(parse, remote_text, x) ==> x == Ok::<SocketAddr, String>(remote),
        reads_as(parse, local_text + seq![','] + remote_text, r),
    ensures
        r == Ok::<(SocketAddr, SocketAddr), String>((local, remote)),
{
    pair_is_read_back(local_text, remote_text);
    assert((local_text + seq![','] + remote_text)[local_text.len() as int] == ',');
}

/// A text with a separator has at least two pieces.
proof fn lemma_two_pieces(s: Seq<char>, sep: char)
    requires
        s.contains(sep),
    ensures
        pieces(s, sep).len() >= 2,
{
    let at = s.index_of(sep);
    lemma_pieces_are_final(s, sep, at);
    lemma_some_piece(s.take(at), sep);
}

/// Every text has a piece.
proof fn lemma_some_piece(s: Seq<char>, sep: char)
    ensures
        pieces(s, sep).len() >= 1,
    decreases s.len(),
{
    if s.len() > 0 {
        lemma_some_piece(s.drop_last(), sep);
    }
}

/// A text without a separator is its only piece.
proof fn lemma_single_piece(s: Seq<char>, sep: char)
    requires
        !s.contains(sep),
    ensures
        pieces(s, sep) == seq![s],
    decreases s.len(),
{
    if s.len() > 0 {
        assert(s[s.len() - 1] != sep);
        assert forall|i: int| 0 <= i < s.len() - 1 implies s.drop_last()[i] != sep by {
            assert(s[i] != sep);
        }
        lemma_single_piece(s.drop_last(), sep);
        assert(s.drop_last().push(s.last()) == s);
    } else {
        assert(s == Seq::<char>::empty());
    }
}

/// A further separator ends the last piece: what follows it does not change
/// the pieces before.
pub proof fn lemma_pieces_are_final(s: Seq<char>, sep: char, at: int)
    requires
        0 <= at < s.len(),
        s[at] == sep,
    ensures
        pieces(s, sep).len() > pieces(s.take(at), sep).len(),
        forall|j: int|
            0 <= j < pieces(s.take(at), sep).len() ==> #[trigger] pieces(s, sep)[j] == pieces(
                s.take(at),
                sep,
            )[j],
    decreases s.len(),
{
    if at == s.len() - 1 {
        assert(s.take(at) == s.drop_last());
    } else {
        lemma_pieces_are_final(s.drop_last(), sep, at);
        assert(s.drop_last().take(at) == s.take(at));
    }
}

} // verus!
