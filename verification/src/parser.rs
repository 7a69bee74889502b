//! The intent parser: a line of text is matched against three fixed patterns
//! in priority order — dictionary, air pollution, how-to — and the first
//! match becomes a typed `Request`. The grammar is stated over character
//! sequences and the executable parser is proved exact against it.

use vstd::prelude::*;

use crate::types::ErrModel;
use crate::types::ReqModel;
use crate::types::Request;
use crate::types::RequestError;

verus! {

/// The first character of a dictionary command: `d` or `D`.
pub open spec fn is_dic_letter(c: char) -> bool {
    c == 'd' || c == 'D'
}

/// The first character of a how-to command: `h` or `H`.
pub open spec fn is_howto_letter(c: char) -> bool {
    c == 'h' || c == 'H'
}

/// Dictionary pattern: `d`/`D`, optionally followed by `ic`, a single space,
/// then a non-empty query taken verbatim to the end of the line.
pub open spec fn dic_query(s: Seq<char>) -> Option<Seq<char>> {
    if s.len() >= 3 && is_dic_letter(s[0]) && s[1] == ' ' {
        Some(s.subrange(2, s.len() as int))
    } else if s.len() >= 5 && is_dic_letter(s[0]) && s[1] == 'i' && s[2] == 'c' && s[3] == ' ' {
        Some(s.subrange(4, s.len() as int))
    } else {
        None
    }
}

/// How-to pattern: `h`/`H`, optionally followed by `owto`, a single space,
/// then a non-empty query taken verbatim to the end of the line.
pub open spec fn howto_query(s: Seq<char>) -> Option<Seq<char>> {
    if s.len() >= 3 && is_howto_letter(s[0]) && s[1] == ' ' {
        Some(s.subrange(2, s.len() as int))
    } else if s.len() >= 7 && is_howto_letter(s[0]) && s[1] == 'o' && s[2] == 'w' && s[3] == 't'
        && s[4] == 'o' && s[5] == ' ' {
        Some(s.subrange(6, s.len() as int))
    } else {
        None
    }
}

pub open spec fn cmd_air() -> Seq<char> {
    seq!['a', 'i', 'r']
}

pub open spec fn cmd_pm() -> Seq<char> {
    seq!['p', 'm']
}

pub open spec fn cmd_pm10() -> Seq<char> {
    seq!['p', 'm', '1', '0']
}

pub open spec fn cmd_pm25() -> Seq<char> {
    seq!['p', 'm', '2', '5']
}

pub open spec fn cmd_o3() -> Seq<char> {
    seq!['o', '3']
}

pub open spec fn cmd_so2() -> Seq<char> {
    seq!['s', 'o', '2']
}

pub open spec fn cmd_no2() -> Seq<char> {
    seq!['n', 'o', '2']
}

pub open spec fn cmd_co() -> Seq<char> {
    seq!['c', 'o']
}

/// Whether `cmd` is one of the accepted pollutant selectors.
pub open spec fn is_air_command(cmd: Seq<char>) -> bool {
    cmd == cmd_air() || cmd == cmd_pm() || cmd == cmd_pm10() || cmd == cmd_pm25() || cmd
        == cmd_o3() || cmd == cmd_so2() || cmd == cmd_no2() || cmd == cmd_co()
}

/// `s` is `cmd`, a single space, then at least one more character.
pub open spec fn air_match(s: Seq<char>, cmd: Seq<char>) -> bool {
    s.len() >= cmd.len() + 2 && s.subrange(0, cmd.len() as int) == cmd && s[cmd.len() as int]
        == ' '
}

/// The query part after an air command and its trailing space.
pub open spec fn air_rest(s: Seq<char>, cmd: Seq<char>) -> Seq<char> {
    s.subrange(cmd.len() as int + 1, s.len() as int)
}

/// Air-pollution pattern: one of the command tokens, a single space, then a
/// non-empty location query. The tokens are tried in a fixed order; at most
/// one can match, since each demands a space right after itself.
pub open spec fn air_parts(s: Seq<char>) -> Option<(Seq<char>, Seq<char>)> {
    if air_match(s, cmd_air()) {
        Some((cmd_air(), air_rest(s, cmd_air())))
    } else if air_match(s, cmd_pm()) {
        Some((cmd_pm(), air_rest(s, cmd_pm())))
    } else if air_match(s, cmd_pm10()) {
        Some((cmd_pm10(), air_rest(s, cmd_pm10())))
    } else if air_match(s, cmd_pm25()) {
        Some((cmd_pm25(), air_rest(s, cmd_pm25())))
    } else if air_match(s, cmd_o3()) {
        Some((cmd_o3(), air_rest(s, cmd_o3())))
    } else if air_match(s, cmd_so2()) {
        Some((cmd_so2(), air_rest(s, cmd_so2())))
    } else if air_match(s, cmd_no2()) {
        Some((cmd_no2(), air_rest(s, cmd_no2())))
    } else if air_match(s, cmd_co()) {
        Some((cmd_co(), air_rest(s, cmd_co())))
    } else {
        None
    }
}

/// Parsing: the dictionary pattern, then air pollution, then how-to; the
/// first matching pattern wins, and a line matching none is unrecognized.
pub open spec fn spec_parse(s: Seq<char>) -> ReqModel {
    match dic_query(s) {
        Some(q) => ReqModel::Dictionary(q),
        None => match air_parts(s) {
            Some(p) => ReqModel::AirPollution(p.0, p.1),
            None => match howto_query(s) {
                Some(q) => ReqModel::HowTo(q),
                None => ReqModel::Unrecognized(s),
            },
        },
    }
}

/// Try the dictionary pattern.
fn parse_dic(s: &str) -> (r: Option<String>)
    ensures
        match r {
            Some(q) => dic_query(s@) == Some(q@),
            None => dic_query(s@) is None,
        },
{
    let len = s.unicode_len();
    if len >= 3 {
        let c0 = s.get_char(0);
        if c0 == 'd' || c0 == 'D' {
            if s.get_char(1) == ' ' {
                return Some(s.substring_char(2, len).to_owned());
            }
            if len >= 5 && s.get_char(1) == 'i' && s.get_char(2) == 'c' && s.get_char(3) == ' ' {
                return Some(s.substring_char(4, len).to_owned());
            }
        }
    }
    None
}

/// Try the how-to pattern.
fn parse_howto(s: &str) -> (r: Option<String>)
    ensures
        match r {
            Some(q) => howto_query(s@) == Some(q@),
            None => howto_query(s@) is None,
        },
{
    let len = s.unicode_len();
    if len >= 3 {
        let c0 = s.get_char(0);
        if c0 == 'h' || c0 == 'H' {
            if s.get_char(1) == ' ' {
                return Some(s.substring_char(2, len).to_owned());
            }
            if len >= 7 && s.get_char(1) == 'o' && s.get_char(2) == 'w' && s.get_char(3) == 't'
                && s.get_char(4) == 'o' && s.get_char(5) == ' ' {
                return Some(s.substring_char(6, len).to_owned());
            }
        }
    }
    None
}

/// Does `s` start with `cmd` followed by a space, with at least one more
/// character after the space?
fn air_match_exec(s: &str, cmd: &str) -> (r: bool)
    requires
        cmd@.len() + 2 <= usize::MAX as int,
    ensures
        r == air_match(s@, cmd@),
{
    let n = cmd.unicode_len();
    let len = s.unicode_len();
    if len < n + 2 {
        return false;
    }
    let mut i: usize = 0;
    while i < n
        invariant
            n == cmd@.len(),
            len == s@.len(),
            len >= n + 2,
            0 <= i <= n,
            forall|j: int| 0 <= j < i ==> s@[j] == cmd@[j],
        decreases n - i,
    {
        if s.get_char(i) != cmd.get_char(i) {
            proof {
                assert(s@.subrange(0, cmd@.len() as int)[i as int] == s@[i as int]);
            }
            return false;
        }
        i += 1;
    }
    if s.get_char(n) != ' ' {
        return false;
    }
    proof {
        assert(s@.subrange(0, cmd@.len() as int) =~= cmd@);
    }
    true
}

/// The query part after a command of known length.
fn air_rest_exec(s: &str, cmd: &str) -> (r: String)
    requires
        air_match(s@, cmd@),
    ensures
        r@ == air_rest(s@, cmd@),
{
    let n = cmd.unicode_len();
    let len = s.unicode_len();
    s.substring_char(n + 1, len).to_owned()
}

/// Try the air-pollution pattern: each command token in order.
fn parse_air(s: &str) -> (r: Option<(String, String)>)
    ensures
        match r {
            Some(p) => air_parts(s@) == Some((p.0@, p.1@)),
            None => air_parts(s@) is None,
        },
{
    proof {
        reveal_strlit("air");
        reveal_strlit("pm");
        reveal_strlit("pm10");
        reveal_strlit("pm25");
        reveal_strlit("o3");
        reveal_strlit("so2");
        reveal_strlit("no2");
        reveal_strlit("co");
        assert("air"@ =~= cmd_air());
        assert("pm"@ =~= cmd_pm());
        assert("pm10"@ =~= cmd_pm10());
        assert("pm25"@ =~= cmd_pm25());
        assert("o3"@ =~= cmd_o3());
        assert("so2"@ =~= cmd_so2());
        assert("no2"@ =~= cmd_no2());
        assert("co"@ =~= cmd_co());
    }
    if air_match_exec(s, "air") {
        return Some(("air".to_owned(), air_rest_exec(s, "air")));
    }
    if air_match_exec(s, "pm") {
        return Some(("pm".to_owned(), air_rest_exec(s, "pm")));
    }
    if air_match_exec(s, "pm10") {
        return Some(("pm10".to_owned(), air_rest_exec(s, "pm10")));
    }
    if air_match_exec(s, "pm25") {
        return Some(("pm25".to_owned(), air_rest_exec(s, "pm25")));
    }
    if air_match_exec(s, "o3") {
        return Some(("o3".to_owned(), air_rest_exec(s, "o3")));
    }
    if air_match_exec(s, "so2") {
        return Some(("so2".to_owned(), air_rest_exec(s, "so2")));
    }
    if air_match_exec(s, "no2") {
        return Some(("no2".to_owned(), air_rest_exec(s, "no2")));
    }
    if air_match_exec(s, "co") {
        return Some(("co".to_owned(), air_rest_exec(s, "co")));
    }
    None
}

impl Request {
    /// Parse a line of text into a request; a line matching no pattern fails
    /// with `CannotParseRequest` carrying the line itself.
    pub fn from_str(message: &str) -> (r: Result<Request, RequestError>)
        ensures
            match r {
                Ok(req) => req@ == spec_parse(message@) && !(spec_parse(message@)
                    is Unrecognized),
                Err(e) => e@ == ErrModel::CannotParseRequest(message@) && spec_parse(message@)
                    is Unrecognized,
            },
    {
        if let Some(q) = parse_dic(message) {
            return Ok(Request::Dictionary(q));
        }
        if let Some((c, q)) = parse_air(message) {
            return Ok(Request::AirPollution(c, q));
        }
        if let Some(q) = parse_howto(message) {
            return Ok(Request::HowTo(q));
        }
        Err(RequestError::CannotParseRequest(message.to_owned()))
    }
}

/// The command line a request prints back to: the shortest prefix form of
/// its intent, a space, and the query verbatim.
pub open spec fn spec_format(r: ReqModel) -> Seq<char> {
    match r {
        ReqModel::Dictionary(q) => seq!['d', ' '] + q,
        ReqModel::AirPollution(c, q) => c + seq![' '] + q,
        ReqModel::HowTo(q) => seq!['h', ' '] + q,
        ReqModel::Unrecognized(s) => s,
    }
}

/// A request that can be printed back: a recognized intent with a known
/// command and a non-empty query.
pub open spec fn valid_model(r: ReqModel) -> bool {
    match r {
        ReqModel::Dictionary(q) => q.len() > 0,
        ReqModel::AirPollution(c, q) => is_air_command(c) && q.len() > 0,
        ReqModel::HowTo(q) => q.len() > 0,
        ReqModel::Unrecognized(_) => false,
    }
}

impl Request {
    /// Print the request back to its command-prefix form.
    pub fn to_command(&self) -> (r: String)
        ensures
            r@ == spec_format(self@),
    {
        proof {
            reveal_strlit("d ");
            reveal_strlit("h ");
            reveal_strlit(" ");
            assert("d "@ =~= seq!['d', ' ']);
            assert("h "@ =~= seq!['h', ' ']);
            assert(" "@ =~= seq![' ']);
        }
        match self {
            Request::Dictionary(q) => "d ".to_owned().concat(q.as_str()),
            Request::AirPollution(c, q) => c.clone().concat(" ").concat(q.as_str()),
            Request::HowTo(q) => "h ".to_owned().concat(q.as_str()),
        }
    }
}

/// `air_match` fails wherever the text differs from the command at some
/// position within the command.
proof fn lemma_air_match_mismatch(s: Seq<char>, cmd: Seq<char>, i: int)
    requires
        0 <= i < cmd.len(),
        i < s.len(),
        s[i] != cmd[i],
    ensures
        !air_match(s, cmd),
{
    if air_match(s, cmd) {
        assert(s.subrange(0, cmd.len() as int)[i] == s[i]);
    }
}

/// Every line of the dictionary form — `d` or `D`, optionally `ic`, a space,
/// then a non-empty remainder — parses to a dictionary request whose query is
/// exactly that remainder.
pub proof fn lemma_dictionary_pattern(c: char, with_ic: bool, q: Seq<char>)
    requires
        is_dic_letter(c),
        q.len() > 0,
    ensures
        spec_parse(
            if with_ic {
                seq![c, 'i', 'c', ' '] + q
            } else {
                seq![c, ' '] + q
            },
        ) == ReqModel::Dictionary(q),
{
    if with_ic {
        let s = seq![c, 'i', 'c', ' '] + q;
        assert(s[0] == c);
        assert(s[1] == 'i');
        assert(s[2] == 'c');
        assert(s[3] == ' ');
        assert(s.subrange(4, s.len() as int) =~= q);
    } else {
        let s = seq![c, ' '] + q;
        assert(s[0] == c);
        assert(s[1] == ' ');
        assert(s.subrange(2, s.len() as int) =~= q);
    }
}

/// Printing a request back to its command form and parsing the line again
/// returns the very same request: the grammar inverts the formatter on every
/// recognized intent with a known command and a non-empty query.
pub proof fn lemma_command_round_trip(r: ReqModel)
    requires
        valid_model(r),
    ensures
        spec_parse(spec_format(r)) == r,
{
    match r {
        ReqModel::Dictionary(q) => {
            let s = seq!['d', ' '] + q;
            assert(s[0] == 'd');
            assert(s[1] == ' ');
            assert(s.subrange(2, s.len() as int) =~= q);
        },
        ReqModel::AirPollution(c, q) => {
            let s = c + seq![' '] + q;
            assert(s.len() == c.len() + 1 + q.len());
            assert(forall|i: int| 0 <= i < c.len() ==> s[i] == c[i]);
            assert(s[c.len() as int] == ' ');
            assert(s.subrange(0, c.len() as int) =~= c);
            assert(air_rest(s, c) =~= q);
            if c == cmd_air() {
                assert(air_match(s, cmd_air()));
            } else if c == cmd_pm() {
                lemma_air_match_mismatch(s, cmd_air(), 0);
                assert(air_match(s, cmd_pm()));
            } else if c == cmd_pm10() {
                lemma_air_match_mismatch(s, cmd_air(), 0);
                assert(s[2] == '1');
                assert(!air_match(s, cmd_pm()));
                assert(air_match(s, cmd_pm10()));
            } else if c == cmd_pm25() {
                lemma_air_match_mismatch(s, cmd_air(), 0);
                assert(s[2] == '2');
                assert(!air_match(s, cmd_pm()));
                lemma_air_match_mismatch(s, cmd_pm10(), 2);
                assert(air_match(s, cmd_pm25()));
            } else if c == cmd_o3() {
                lemma_air_match_mismatch(s, cmd_air(), 0);
                lemma_air_match_mismatch(s, cmd_pm(), 0);
                lemma_air_match_mismatch(s, cmd_pm10(), 0);
                lemma_air_match_mismatch(s, cmd_pm25(), 0);
                assert(air_match(s, cmd_o3()));
            } else if c == cmd_so2() {
                lemma_air_match_mismatch(s, cmd_air(), 0);
                lemma_air_match_mismatch(s, cmd_pm(), 0);
                lemma_air_match_mismatch(s, cmd_pm10(), 0);
                lemma_air_match_mismatch(s, cmd_pm25(), 0);
                lemma_air_match_mismatch(s, cmd_o3(), 0);
                assert(air_match(s, cmd_so2()));
            } else if c == cmd_no2() {
                lemma_air_match_mismatch(s, cmd_air(), 0);
                lemma_air_match_mismatch(s, cmd_pm(), 0);
                lemma_air_match_mismatch(s, cmd_pm10(), 0);
                lemma_air_match_mismatch(s, cmd_pm25(), 0);
                lemma_air_match_mismatch(s, cmd_o3(), 0);
                lemma_air_match_mismatch(s, cmd_so2(), 0);
                assert(air_match(s, cmd_no2()));
            } else {
                lemma_air_match_mismatch(s, cmd_air(), 0);
                lemma_air_match_mismatch(s, cmd_pm(), 0);
                lemma_air_match_mismatch(s, cmd_pm10(), 0);
                lemma_air_match_mismatch(s, cmd_pm25(), 0);
                lemma_air_match_mismatch(s, cmd_o3(), 0);
                lemma_air_match_mismatch(s, cmd_so2(), 0);
                lemma_air_match_mismatch(s, cmd_no2(), 0);
                assert(air_match(s, cmd_co()));
            }
        },
        ReqModel::HowTo(q) => {
            let s = seq!['h', ' '] + q;
            assert(s[0] == 'h');
            assert(s[1] == ' ');
            lemma_air_match_mismatch(s, cmd_air(), 0);
            lemma_air_match_mismatch(s, cmd_pm(), 0);
            lemma_air_match_mismatch(s, cmd_pm10(), 0);
            lemma_air_match_mismatch(s, cmd_pm25(), 0);
            lemma_air_match_mismatch(s, cmd_o3(), 0);
            lemma_air_match_mismatch(s, cmd_so2(), 0);
            lemma_air_match_mismatch(s, cmd_no2(), 0);
            lemma_air_match_mismatch(s, cmd_co(), 0);
            assert(s.subrange(2, s.len() as int) =~= q);
        },
        ReqModel::Unrecognized(_) => {
        },
    }
}

} // verus!
