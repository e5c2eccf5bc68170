//! The command-line parser: tokenizes a raw control-channel line, resolves the
//! verb case-insensitively against the table of supported commands, and
//! enforces each verb's declared arity.
//!
//! The arity rule, for a verb of declared arity `N`:
//! - `N = 0`: any remaining tokens are joined with single spaces into one
//!   optional argument; no remaining tokens means no argument at all.
//! - `N > 0`: the first `N - 1` remaining tokens become individual arguments,
//!   and every token from position `N - 1` on is joined with single spaces
//!   into the final argument. Fewer than `N` remaining tokens is an arity
//!   error. Excess tokens are never dropped: they always fold into the final
//!   argument.

use vstd::prelude::*;

use crate::text::seq_ieq;
use crate::text::str_ieq;
use crate::text::ieq_char;
use crate::text::lemma_ieq_char_trans;
use crate::response::Response;
use crate::response::ResponseKind;

verus! {

/// The characters on which a command line is split into tokens: the ASCII
/// whitespace characters.
pub open spec fn is_cmd_ws(c: char) -> bool {
    c == ' ' || c == '\t' || c == '\n' || c == '\u{c}' || c == '\r'
}

/// The tokens of `s`, accumulated left to right; `cur` is the part of the
/// current token read so far.
pub open spec fn tokens_from(s: Seq<char>, cur: Seq<char>) -> Seq<Seq<char>>
    decreases s.len(),
{
    if s.len() == 0 {
        if cur.len() == 0 {
            Seq::<Seq<char>>::empty()
        } else {
            seq![cur]
        }
    } else if is_cmd_ws(s[0]) {
        if cur.len() == 0 {
            tokens_from(s.drop_first(), Seq::<char>::empty())
        } else {
            seq![cur] + tokens_from(s.drop_first(), Seq::<char>::empty())
        }
    } else {
        tokens_from(s.drop_first(), cur.push(s[0]))
    }
}

/// The maximal runs of non-whitespace characters of `s`, in order.
pub open spec fn spec_tokens(s: Seq<char>) -> Seq<Seq<char>> {
    tokens_from(s, Seq::<char>::empty())
}

/// A well-formed token: nonempty and free of whitespace.
pub open spec fn token_wf(t: Seq<char>) -> bool {
    t.len() > 0 && forall|j: int| 0 <= j < t.len() ==> !is_cmd_ws(#[trigger] t[j])
}

proof fn lemma_tokens_from_wellformed(s: Seq<char>, cur: Seq<char>)
    requires
        forall|j: int| 0 <= j < cur.len() ==> !is_cmd_ws(#[trigger] cur[j]),
    ensures
        forall|i: int|
            0 <= i < tokens_from(s, cur).len() ==> token_wf(#[trigger] tokens_from(s, cur)[i]),
    decreases s.len(),
{
    if s.len() == 0 {
        if cur.len() > 0 {
            assert(tokens_from(s, cur) == seq![cur]);
            assert(token_wf(cur));
        }
    } else if is_cmd_ws(s[0]) {
        lemma_tokens_from_wellformed(s.drop_first(), Seq::<char>::empty());
        let rest = tokens_from(s.drop_first(), Seq::<char>::empty());
        if cur.len() == 0 {
            assert(tokens_from(s, cur) == rest);
        } else {
            assert(tokens_from(s, cur) == seq![cur] + rest);
            assert(token_wf(cur));
            assert forall|i: int|
                0 <= i < (seq![cur] + rest).len() implies token_wf(
                #[trigger] (seq![cur] + rest)[i],
            ) by {
                if i > 0 {
                    assert((seq![cur] + rest)[i] == rest[i - 1]);
                }
            }
        }
    } else {
        let grown = cur.push(s[0]);
        assert forall|j: int| 0 <= j < grown.len() implies !is_cmd_ws(#[trigger] grown[j]) by {
            if j == cur.len() {
                assert(grown[j] == s[0]);
            }
        }
        lemma_tokens_from_wellformed(s.drop_first(), grown);
        assert(tokens_from(s, cur) == tokens_from(s.drop_first(), grown));
    }
}

/// Tokenization is sound: every token of a line is nonempty and holds no
/// whitespace character.
pub proof fn lemma_tokens_wellformed(s: Seq<char>)
    ensures
        forall|i: int| 0 <= i < spec_tokens(s).len() ==> token_wf(#[trigger] spec_tokens(s)[i]),
{
    lemma_tokens_from_wellformed(s, Seq::<char>::empty());
}

/// Splits a line on ASCII whitespace into its tokens.
pub fn tokenize(s: &str) -> (toks: Vec<String>)
    ensures
        toks.deep_view() == spec_tokens(s@),
{
    let n = s.unicode_len();
    let mut toks: Vec<String> = Vec::new();
    let mut cur: String = String::new();
    let mut i: usize = 0;
    proof {
        assert(toks.deep_view() =~= Seq::<Seq<char>>::empty());
        assert(s@.skip(0) =~= s@);
        assert(Seq::<Seq<char>>::empty() + tokens_from(s@, Seq::<char>::empty()) =~= tokens_from(
            s@,
            Seq::<char>::empty(),
        ));
    }
    while i < n
        invariant
            n == s@.len(),
            i <= n,
            spec_tokens(s@) == toks.deep_view() + tokens_from(s@.skip(i as int), cur@),
        decreases n - i,
    {
        let ghost prev = toks.deep_view();
        let ghost pcur = cur@;
        proof {
            assert(s@.skip(i as int)[0] == s@[i as int]);
            assert(s@.skip(i as int).drop_first() =~= s@.skip(i as int + 1));
        }
        let c = s.get_char(i);
        if c == ' ' || c == '\t' || c == '\n' || c == '\u{c}' || c == '\r' {
            if !cur.as_str().is_empty() {
                toks.push(cur);
                cur = String::new();
                proof {
                    assert(toks.deep_view() =~= prev + seq![pcur]);
                    assert((prev + seq![pcur]) + tokens_from(
                        s@.skip(i as int + 1),
                        Seq::<char>::empty(),
                    ) =~= prev + (seq![pcur] + tokens_from(
                        s@.skip(i as int + 1),
                        Seq::<char>::empty(),
                    )));
                }
            } else {
                proof {
                    assert(cur@ =~= Seq::<char>::empty());
                }
            }
        } else {
            let piece = s.substring_char(i, i + 1);
            cur.append(piece);
            proof {
                assert(cur@ =~= pcur.push(s@[i as int]));
            }
        }
        i += 1;
    }
    proof {
        assert(s@.skip(n as int) =~= Seq::<char>::empty());
    }
    if !cur.as_str().is_empty() {
        let ghost prev = toks.deep_view();
        let ghost pcur = cur@;
        toks.push(cur);
        proof {
            assert(toks.deep_view() =~= prev + seq![pcur]);
        }
    } else {
        proof {
            assert(toks.deep_view() + Seq::<Seq<char>>::empty() =~= toks.deep_view());
        }
    }
    toks
}

/// The supported verbs.
#[derive(Clone, Copy, Debug, PartialEq, Eq, Structural)]
pub enum Verb {
    Quit,
    User,
    Pass,
    FakeCmdWithTwoArg,
    Pasv,
    Port,
    List,
}

/// The declared arity of each verb.
pub open spec fn arity_of(v: Verb) -> nat {
    match v {
        Verb::Quit => 0,
        Verb::User => 1,
        Verb::Pass => 1,
        Verb::FakeCmdWithTwoArg => 2,
        Verb::Pasv => 0,
        Verb::Port => 1,
        Verb::List => 0,
    }
}

/// The verb that the first token resolves to, matched without regard to ASCII
/// case; an unrecognised token resolves to none.
pub open spec fn verb_of(tok: Seq<char>) -> Option<Verb> {
    if seq_ieq(tok, "quit"@) {
        Some(Verb::Quit)
    } else if seq_ieq(tok, "user"@) {
        Some(Verb::User)
    } else if seq_ieq(tok, "pass"@) {
        Some(Verb::Pass)
    } else if seq_ieq(tok, "fakecmdwithtwoarg"@) {
        Some(Verb::FakeCmdWithTwoArg)
    } else if seq_ieq(tok, "pasv"@) {
        Some(Verb::Pasv)
    } else if seq_ieq(tok, "port"@) {
        Some(Verb::Port)
    } else if seq_ieq(tok, "list"@) {
        Some(Verb::List)
    } else {
        None
    }
}

/// Resolves a token against the verb table, case-insensitively.
fn lookup_verb(tok: &str) -> (r: Option<Verb>)
    ensures
        r == verb_of(tok@),
{
    if str_ieq(tok, "quit") {
        Some(Verb::Quit)
    } else if str_ieq(tok, "user") {
        Some(Verb::User)
    } else if str_ieq(tok, "pass") {
        Some(Verb::Pass)
    } else if str_ieq(tok, "fakecmdwithtwoarg") {
        Some(Verb::FakeCmdWithTwoArg)
    } else if str_ieq(tok, "pasv") {
        Some(Verb::Pasv)
    } else if str_ieq(tok, "port") {
        Some(Verb::Port)
    } else if str_ieq(tok, "list") {
        Some(Verb::List)
    } else {
        None
    }
}

/// The declared arity of a verb.
fn arity(v: Verb) -> (r: usize)
    ensures
        r as nat == arity_of(v),
{
    match v {
        Verb::Quit => 0,
        Verb::User => 1,
        Verb::Pass => 1,
        Verb::FakeCmdWithTwoArg => 2,
        Verb::Pasv => 0,
        Verb::Port => 1,
        Verb::List => 0,
    }
}

/// The tokens joined into one string with a single space between neighbours.
pub open spec fn join_tokens(ts: Seq<Seq<char>>) -> Seq<char>
    decreases ts.len(),
{
    if ts.len() == 0 {
        Seq::<char>::empty()
    } else if ts.len() == 1 {
        ts[0]
    } else {
        ts[0] + seq![' '] + join_tokens(ts.drop_first())
    }
}

/// Appending one token to a join extends it with one separating space.
proof fn lemma_join_push(ts: Seq<Seq<char>>, t: Seq<char>)
    ensures
        join_tokens(ts.push(t)) == if ts.len() == 0 {
            t
        } else {
            join_tokens(ts) + seq![' '] + t
        },
    decreases ts.len(),
{
    if ts.len() == 0 {
        assert(ts.push(t)[0] == t);
    } else {
        assert(ts.push(t).drop_first() =~= ts.drop_first().push(t));
        lemma_join_push(ts.drop_first(), t);
        if ts.len() == 1 {
            assert(ts.push(t)[0] == ts[0]);
        } else {
            assert((ts[0] + seq![' '] + (join_tokens(ts.drop_first()) + seq![' '] + t)) =~= (ts[0]
                + seq![' '] + join_tokens(ts.drop_first())) + seq![' '] + t);
        }
    }
}

/// Joins the tokens of `toks` from position `start` on, with single spaces.
fn join_from(toks: &Vec<String>, start: usize) -> (r: String)
    requires
        start <= toks@.len(),
    ensures
        r@ == join_tokens(toks.deep_view().skip(start as int)),
{
    let ghost dv = toks.deep_view();
    let mut r = String::new();
    let mut i: usize = start;
    while i < toks.len()
        invariant
            start <= i <= toks@.len(),
            dv == toks.deep_view(),
            r@ == join_tokens(dv.subrange(start as int, i as int)),
        decreases toks@.len() - i,
    {
        let ghost prev = r@;
        proof {
            assert(dv.subrange(start as int, i as int + 1) =~= dv.subrange(
                start as int,
                i as int,
            ).push(dv[i as int]));
            lemma_join_push(dv.subrange(start as int, i as int), dv[i as int]);
            assert(dv[i as int] == toks@[i as int]@);
        }
        if i > start {
            r.append(" ");
            proof {
                reveal_strlit(" ");
                assert(r@ =~= prev + seq![' ']);
            }
        }
        r.append(toks[i].as_str());
        i += 1;
    }
    proof {
        assert(dv.subrange(start as int, dv.len() as int) =~= dv.skip(start as int));
    }
    r
}

/// The argument list that the arity rule yields from the tokens after the
/// verb, or none when too few tokens remain.
pub open spec fn parse_args(arity: nat, rest: Seq<Seq<char>>) -> Option<Seq<Seq<char>>> {
    if arity == 0 {
        if rest.len() == 0 {
            Some(Seq::<Seq<char>>::empty())
        } else {
            Some(seq![join_tokens(rest)])
        }
    } else if rest.len() < arity {
        None
    } else {
        Some(rest.take(arity as int - 1) + seq![join_tokens(rest.skip(arity as int - 1))])
    }
}

/// Builds the argument list of declared arity `want` from the tokens of the
/// line (`toks`, verb included), or reports too few tokens.
fn collect_args(want: usize, toks: &Vec<String>) -> (r: Option<Vec<String>>)
    requires
        toks@.len() >= 1,
    ensures
        match parse_args(want as nat, toks.deep_view().drop_first()) {
            Some(args) => r matches Some(v) && v.deep_view() == args,
            None => r is None,
        },
{
    let ghost dv = toks.deep_view();
    let ghost rest = dv.drop_first();
    if want == 0 {
        if toks.len() == 1 {
            let r: Vec<String> = Vec::new();
            proof {
                assert(rest.len() == 0);
                assert(r.deep_view() =~= Seq::<Seq<char>>::empty());
            }
            Some(r)
        } else {
            proof {
                assert(dv.skip(1) =~= rest);
            }
            let joined = join_from(toks, 1);
            let mut r: Vec<String> = Vec::new();
            r.push(joined);
            proof {
                assert(r.deep_view() =~= seq![join_tokens(rest)]);
            }
            Some(r)
        }
    } else if toks.len() - 1 < want {
        proof {
            assert(rest.len() < want as nat);
        }
        None
    } else {
        let mut args: Vec<String> = Vec::new();
        let mut i: usize = 1;
        while i < want
            invariant
                1 <= i <= want,
                want + 1 <= toks@.len(),
                dv == toks.deep_view(),
                args.deep_view() == dv.subrange(1, i as int),
            decreases want - i,
        {
            let ghost prev = args.deep_view();
            args.push(toks[i].clone());
            proof {
                assert(args.deep_view() =~= prev.push(dv[i as int]));
                assert(dv.subrange(1, i as int + 1) =~= dv.subrange(1, i as int).push(
                    dv[i as int],
                ));
            }
            i += 1;
        }
        let ghost prev = args.deep_view();
        let joined = join_from(toks, want);
        args.push(joined);
        proof {
            assert(dv.skip(want as int) =~= rest.skip(want as int - 1));
            assert(dv.subrange(1, want as int) =~= rest.take(want as int - 1));
            assert(args.deep_view() =~= rest.take(want as int - 1) + seq![
                join_tokens(rest.skip(want as int - 1)),
            ]);
        }
        Some(args)
    }
}

/// Why a line failed to parse. Syntax-class failures (an empty line, an
/// unknown verb) answer with code 500; an arity failure answers with 501.
#[derive(Clone, Copy, Debug, PartialEq, Eq, Structural)]
pub enum ParseError {
    /// The line holds no token at all.
    SyntaxError,
    /// The first token matches no supported verb.
    UnknownCommand,
    /// Fewer tokens than the verb's declared arity.
    ArityError,
}

/// The response that reports a parse failure to the client.
pub fn parse_error_response(e: ParseError) -> (r: Response)
    ensures
        e is SyntaxError ==> r.kind == ResponseKind::SyntaxError500 && r.text is None,
        e is UnknownCommand ==> r.kind == ResponseKind::SyntaxError500 && (r.text matches Some(t)
            && t@ == "Command not understood."@),
        e is ArityError ==> r.kind == ResponseKind::BadArity501 && (r.text matches Some(t) && t@
            == "Invalid number of arguments."@),
{
    match e {
        ParseError::SyntaxError => Response::with_default(ResponseKind::SyntaxError500),
        ParseError::UnknownCommand => Response::new(
            ResponseKind::SyntaxError500,
            "Command not understood.",
        ),
        ParseError::ArityError => Response::new(
            ResponseKind::BadArity501,
            "Invalid number of arguments.",
        ),
    }
}

/// What parsing a token list yields: a verb with its argument list, or the
/// error class.
pub open spec fn spec_parse_tokens(toks: Seq<Seq<char>>) -> Result<(Verb, Seq<Seq<char>>), ParseError> {
    if toks.len() == 0 {
        Err(ParseError::SyntaxError)
    } else {
        match verb_of(toks[0]) {
            None => Err(ParseError::UnknownCommand),
            Some(v) => match parse_args(arity_of(v), toks.drop_first()) {
                None => Err(ParseError::ArityError),
                Some(args) => Ok((v, args)),
            },
        }
    }
}

/// What parsing a raw line yields.
pub open spec fn spec_parse(line: Seq<char>) -> Result<(Verb, Seq<Seq<char>>), ParseError> {
    spec_parse_tokens(spec_tokens(line))
}

/// A successfully parsed command: a verb together with the argument list that
/// the arity rule produced for it.
#[derive(Debug)]
pub enum Command {
    Quit(Vec<String>),
    User(Vec<String>),
    Pass(Vec<String>),
    FakeCmdWithTwoArg(Vec<String>),
    Pasv(Vec<String>),
    Port(Vec<String>),
    List(Vec<String>),
}

impl Command {
    /// The verb of this command.
    pub open spec fn spec_verb(&self) -> Verb {
        match self {
            Command::Quit(_) => Verb::Quit,
            Command::User(_) => Verb::User,
            Command::Pass(_) => Verb::Pass,
            Command::FakeCmdWithTwoArg(_) => Verb::FakeCmdWithTwoArg,
            Command::Pasv(_) => Verb::Pasv,
            Command::Port(_) => Verb::Port,
            Command::List(_) => Verb::List,
        }
    }

    /// The arguments of this command, as character sequences.
    pub open spec fn spec_args(&self) -> Seq<Seq<char>> {
        match self {
            Command::Quit(a) => a.deep_view(),
            Command::User(a) => a.deep_view(),
            Command::Pass(a) => a.deep_view(),
            Command::FakeCmdWithTwoArg(a) => a.deep_view(),
            Command::Pasv(a) => a.deep_view(),
            Command::Port(a) => a.deep_view(),
            Command::List(a) => a.deep_view(),
        }
    }

    /// Wraps an argument list in the variant of the given verb.
    fn from_parts(v: Verb, args: Vec<String>) -> (c: Command)
        ensures
            c.spec_verb() == v,
            c.spec_args() == args.deep_view(),
    {
        match v {
            Verb::Quit => Command::Quit(args),
            Verb::User => Command::User(args),
            Verb::Pass => Command::Pass(args),
            Verb::FakeCmdWithTwoArg => Command::FakeCmdWithTwoArg(args),
            Verb::Pasv => Command::Pasv(args),
            Verb::Port => Command::Port(args),
            Verb::List => Command::List(args),
        }
    }

    /// The arguments of this command.
    pub fn get_args(&self) -> (r: &Vec<String>)
        ensures
            r.deep_view() == self.spec_args(),
    {
        match self {
            Command::Quit(a) => a,
            Command::User(a) => a,
            Command::Pass(a) => a,
            Command::FakeCmdWithTwoArg(a) => a,
            Command::Pasv(a) => a,
            Command::Port(a) => a,
            Command::List(a) => a,
        }
    }

    /// Parses one raw command line: tokenizes it, resolves the verb
    /// case-insensitively, and applies the arity rule.
    pub fn parse(line: &str) -> (r: Result<Command, ParseError>)
        ensures
            match spec_parse(line@) {
                Ok((v, args)) => r matches Ok(c) && c.spec_verb() == v && c.spec_args() == args,
                Err(e) => r matches Err(e2) && e2 == e,
            },
    {
        let toks = tokenize(line);
        let ghost dv = toks.deep_view();
        if toks.len() == 0 {
            return Err(ParseError::SyntaxError);
        }
        proof {
            assert(dv[0] == toks@[0]@);
        }
        match lookup_verb(toks[0].as_str()) {
            None => Err(ParseError::UnknownCommand),
            Some(v) => {
                let want = arity(v);
                match collect_args(want, &toks) {
                    None => Err(ParseError::ArityError),
                    Some(args) => Ok(Command::from_parts(v, args)),
                }
            },
        }
    }
}

/// The arity invariant of every successfully parsed command: a verb of
/// declared arity zero carries at most one (optional) argument, and a verb of
/// positive declared arity carries exactly that many.
pub proof fn lemma_parsed_arity(line: Seq<char>)
    ensures
        spec_parse(line) matches Ok((v, args)) ==> if arity_of(v) == 0 {
            args.len() <= 1
        } else {
            args.len() == arity_of(v)
        },
{
}

/// With exactly as many remaining tokens as the declared arity, the arity
/// rule preserves the tokens verbatim as the arguments.
pub proof fn lemma_exact_arity_verbatim(arity: nat, rest: Seq<Seq<char>>)
    requires
        rest.len() == arity,
    ensures
        parse_args(arity, rest) == Some(rest),
{
    if arity == 0 {
        assert(rest =~= Seq::<Seq<char>>::empty());
    } else {
        let last = rest.skip(arity as int - 1);
        assert(last.len() == 1);
        assert(last[0] == rest[arity as int - 1]);
        assert(join_tokens(last) == rest[arity as int - 1]);
        assert(rest.take(arity as int - 1) + seq![rest[arity as int - 1]] =~= rest);
    }
}

/// Equality up to ASCII case carries over from sequence to sequence.
proof fn lemma_seq_ieq_trans(a: Seq<char>, b: Seq<char>, c: Seq<char>)
    requires
        seq_ieq(a, b),
        seq_ieq(b, c),
    ensures
        seq_ieq(a, c),
{
    assert forall|i: int| 0 <= i < a.len() implies ieq_char(a[i], c[i]) by {
        lemma_ieq_char_trans(a[i], b[i], c[i]);
    }
}

/// Two tokens that agree up to ASCII case resolve against one fixed verb text
/// the same way.
proof fn lemma_ieq_same_verb_text(t1: Seq<char>, t2: Seq<char>, c: Seq<char>)
    requires
        seq_ieq(t1, t2),
    ensures
        seq_ieq(t1, c) <==> seq_ieq(t2, c),
{
    assert(seq_ieq(t2, t1));
    if seq_ieq(t1, c) {
        lemma_seq_ieq_trans(t2, t1, c);
    }
    if seq_ieq(t2, c) {
        lemma_seq_ieq_trans(t1, t2, c);
    }
}

/// Verb matching is case-insensitive: two first tokens that agree up to ASCII
/// case resolve to the same verb.
pub proof fn lemma_verb_of_case_insensitive(t1: Seq<char>, t2: Seq<char>)
    requires
        seq_ieq(t1, t2),
    ensures
        verb_of(t1) == verb_of(t2),
{
    lemma_ieq_same_verb_text(t1, t2, "quit"@);
    lemma_ieq_same_verb_text(t1, t2, "user"@);
    lemma_ieq_same_verb_text(t1, t2, "pass"@);
    lemma_ieq_same_verb_text(t1, t2, "fakecmdwithtwoarg"@);
    lemma_ieq_same_verb_text(t1, t2, "pasv"@);
    lemma_ieq_same_verb_text(t1, t2, "port"@);
    lemma_ieq_same_verb_text(t1, t2, "list"@);
}

/// Parsing is case-insensitive in the verb: swapping the first token for one
/// that agrees with it up to ASCII case leaves the parse unchanged.
pub proof fn lemma_parse_tokens_case_insensitive(t1: Seq<char>, t2: Seq<char>, rest: Seq<Seq<char>>)
    requires
        seq_ieq(t1, t2),
    ensures
        spec_parse_tokens(seq![t1] + rest) == spec_parse_tokens(seq![t2] + rest),
{
    lemma_verb_of_case_insensitive(t1, t2);
    assert((seq![t1] + rest)[0] == t1);
    assert((seq![t2] + rest)[0] == t2);
    assert((seq![t1] + rest).drop_first() =~= rest);
    assert((seq![t2] + rest).drop_first() =~= rest);
}

} // verus!
