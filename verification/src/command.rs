//! The command decoder: one token sequence in, exactly one `Command` out.

use crate::protocol::{token_bytes, RESP};
use vstd::prelude::*;
use vstd::slice::slice_to_vec;
use vstd::std_specs::cmp::PartialEqSpec;
use vstd::string::StringExecFns;
use vstd::utf8::{decode_utf8, valid_utf8};

verus! {

/// A decoded request, ready for the execution engine. The verb variants
/// carry the name of the wire verb they stand for; `SET`, `GET` and `DEL`
/// own independent copies of their byte buffers. `Error` carries a fixed
/// protocol or arity message, `NotSupported` a message naming the
/// unrecognized verb.
#[allow(non_camel_case_types)]
#[derive(Debug)]
pub enum Command {
    SET(Vec<u8>, Vec<u8>),
    GET(Vec<u8>),
    DEL(Vec<u8>),
    INFO,
    PING,
    QUIT,
    Error(&'static str),
    NotSupported(String),
}

/// The mathematical model of a `Command`: byte buffers as byte sequences,
/// messages as character sequences.
#[allow(non_camel_case_types)]
pub enum CommandModel {
    SET { key: Seq<u8>, value: Seq<u8> },
    GET { key: Seq<u8> },
    DEL { key: Seq<u8> },
    INFO,
    PING,
    QUIT,
    Error { message: Seq<char> },
    NotSupported { message: Seq<char> },
}

impl View for Command {
    type V = CommandModel;

    open spec fn view(&self) -> CommandModel {
        match self {
            Command::SET(k, v) => CommandModel::SET { key: k@, value: v@ },
            Command::GET(k) => CommandModel::GET { key: k@ },
            Command::DEL(k) => CommandModel::DEL { key: k@ },
            Command::INFO => CommandModel::INFO,
            Command::PING => CommandModel::PING,
            Command::QUIT => CommandModel::QUIT,
            Command::Error(m) => CommandModel::Error { message: m@ },
            Command::NotSupported(m) => CommandModel::NotSupported { message: m@ },
        }
    }
}

/// The three accepted spellings of the SET verb, as ASCII bytes: `SET`,
/// `set` and `Set`. Only these literal casings are recognized; the match
/// is deliberately not a general case fold, mirroring accepted client
/// behavior. The same holds for every other verb below.
pub open spec fn is_set_verb(v: Seq<u8>) -> bool {
    ||| v == seq![83u8, 69, 84]
    ||| v == seq![115u8, 101, 116]
    ||| v == seq![83u8, 101, 116]
}

/// The accepted spellings of the GET verb: `GET`, `get` and `Get`.
pub open spec fn is_get_verb(v: Seq<u8>) -> bool {
    ||| v == seq![71u8, 69, 84]
    ||| v == seq![103u8, 101, 116]
    ||| v == seq![71u8, 101, 116]
}

/// The accepted spellings of the DEL verb: `DEL`, `del` and `Del`.
pub open spec fn is_del_verb(v: Seq<u8>) -> bool {
    ||| v == seq![68u8, 69, 76]
    ||| v == seq![100u8, 101, 108]
    ||| v == seq![68u8, 101, 108]
}

/// The accepted spellings of the INFO verb: `INFO`, `info` and `Info`.
pub open spec fn is_info_verb(v: Seq<u8>) -> bool {
    ||| v == seq![73u8, 78, 70, 79]
    ||| v == seq![105u8, 110, 102, 111]
    ||| v == seq![73u8, 110, 102, 111]
}

/// The accepted spellings of the PING verb: `PING`, `ping` and `Ping`.
pub open spec fn is_ping_verb(v: Seq<u8>) -> bool {
    ||| v == seq![80u8, 73, 78, 71]
    ||| v == seq![112u8, 105, 110, 103]
    ||| v == seq![80u8, 105, 110, 103]
}

/// The accepted spellings of the QUIT verb: `QUIT`, `quit` and `Quit`.
pub open spec fn is_quit_verb(v: Seq<u8>) -> bool {
    ||| v == seq![81u8, 85, 73, 84]
    ||| v == seq![113u8, 117, 105, 116]
    ||| v == seq![81u8, 117, 105, 116]
}

/// Does this buffer hold exactly the three given bytes?
fn bytes_are3(b: &Vec<u8>, c0: u8, c1: u8, c2: u8) -> (r: bool)
    ensures
        r == (b@ == seq![c0, c1, c2]),
{
    if b.len() != 3 {
        return false;
    }
    let r = b[0] == c0 && b[1] == c1 && b[2] == c2;
    proof {
        if r {
            assert(b@ =~= seq![c0, c1, c2]);
        }
    }
    r
}

/// Does this buffer hold exactly the four given bytes?
fn bytes_are4(b: &Vec<u8>, c0: u8, c1: u8, c2: u8, c3: u8) -> (r: bool)
    ensures
        r == (b@ == seq![c0, c1, c2, c3]),
{
    if b.len() != 4 {
        return false;
    }
    let r = b[0] == c0 && b[1] == c1 && b[2] == c2 && b[3] == c3;
    proof {
        if r {
            assert(b@ =~= seq![c0, c1, c2, c3]);
        }
    }
    r
}

fn matches_set_verb(b: &Vec<u8>) -> (r: bool)
    ensures
        r == is_set_verb(b@),
{
    bytes_are3(b, 83, 69, 84) || bytes_are3(b, 115, 101, 116) || bytes_are3(b, 83, 101, 116)
}

fn matches_get_verb(b: &Vec<u8>) -> (r: bool)
    ensures
        r == is_get_verb(b@),
{
    bytes_are3(b, 71, 69, 84) || bytes_are3(b, 103, 101, 116) || bytes_are3(b, 71, 101, 116)
}

fn matches_del_verb(b: &Vec<u8>) -> (r: bool)
    ensures
        r == is_del_verb(b@),
{
    bytes_are3(b, 68, 69, 76) || bytes_are3(b, 100, 101, 108) || bytes_are3(b, 68, 101, 108)
}

fn matches_info_verb(b: &Vec<u8>) -> (r: bool)
    ensures
        r == is_info_verb(b@),
{
    bytes_are4(b, 73, 78, 70, 79) || bytes_are4(b, 105, 110, 102, 111) || bytes_are4(b, 73, 110, 102, 111)
}

fn matches_ping_verb(b: &Vec<u8>) -> (r: bool)
    ensures
        r == is_ping_verb(b@),
{
    bytes_are4(b, 80, 73, 78, 71) || bytes_are4(b, 112, 105, 110, 103) || bytes_are4(b, 80, 105, 110, 103)
}

fn matches_quit_verb(b: &Vec<u8>) -> (r: bool)
    ensures
        r == is_quit_verb(b@),
{
    bytes_are4(b, 81, 85, 73, 84) || bytes_are4(b, 113, 117, 105, 116) || bytes_are4(b, 81, 117, 105, 116)
}

/// Extracts an owned copy of the byte payload of a textual token. Yields
/// `None` exactly when no token is given or the token is of a non-textual
/// kind; callers turn that `None` into their arity or format error.
pub fn get_bytes_vec(resp: Option<&RESP>) -> (r: Option<Vec<u8>>)
    ensures
        match resp {
            Option::Some(t) => match token_bytes(*t) {
                Option::Some(bytes) => r matches Option::Some(b) && b@ == bytes,
                Option::None => r is None,
            },
            Option::None => r is None,
        },
{
    match resp {
        Option::Some(RESP::String(x)) => Option::Some(slice_to_vec(x.as_slice())),
        Option::Some(RESP::BulkString(x)) => Option::Some(slice_to_vec(x.as_slice())),
        _ => Option::None,
    }
}

/// Are two byte buffers equal, byte for byte?
fn bytes_eq(a: &Vec<u8>, b: &Vec<u8>) -> (r: bool)
    ensures
        r == (a@ == b@),
{
    if a.len() != b.len() {
        return false;
    }
    let mut i: usize = 0;
    while i < a.len()
        invariant
            i <= a.len(),
            a.len() == b.len(),
            forall|j: int| 0 <= j < i ==> a@[j] == b@[j],
        decreases a.len() - i,
    {
        if a[i] != b[i] {
            return false;
        }
        i += 1;
    }
    proof {
        assert(a@ =~= b@);
    }
    true
}

/// Are two strings equal, character for character?
fn str_eq(a: &str, b: &str) -> (r: bool)
    ensures
        r == (a@ == b@),
{
    let n = a.unicode_len();
    if n != b.unicode_len() {
        return false;
    }
    let mut i: usize = 0;
    while i < n
        invariant
            i <= n,
            n == a@.len(),
            a@.len() == b@.len(),
            forall|j: int| 0 <= j < i ==> a@[j] == b@[j],
        decreases n - i,
    {
        if a.get_char(i) != b.get_char(i) {
            return false;
        }
        i += 1;
    }
    proof {
        assert(a@ =~= b@);
    }
    true
}

impl PartialEq for Command {
    /// Structural equality: same variant, byte-equal buffers,
    /// character-equal messages.
    fn eq(&self, other: &Command) -> (r: bool) {
        match (self, other) {
            (Command::SET(k1, v1), Command::SET(k2, v2)) => bytes_eq(k1, k2) && bytes_eq(v1, v2),
            (Command::GET(k1), Command::GET(k2)) => bytes_eq(k1, k2),
            (Command::DEL(k1), Command::DEL(k2)) => bytes_eq(k1, k2),
            (Command::INFO, Command::INFO) => true,
            (Command::PING, Command::PING) => true,
            (Command::QUIT, Command::QUIT) => true,
            (Command::Error(m1), Command::Error(m2)) => str_eq(m1, m2),
            (Command::NotSupported(m1), Command::NotSupported(m2)) => str_eq(
                m1.as_str(),
                m2.as_str(),
            ),
            _ => false,
        }
    }
}

impl vstd::std_specs::cmp::PartialEqSpecImpl for Command {
    open spec fn obeys_eq_spec() -> bool {
        true
    }

    /// What `==` means on commands: equality of the mathematical models.
    open spec fn eq_spec(&self, other: &Command) -> bool {
        self@ == other@
    }
}

/// The text shown for a verb in the `NotSupported` message: the verb's
/// UTF-8 decoding where its bytes are valid UTF-8, a placeholder question
/// mark otherwise (the decoder never fails on a malformed verb).
pub open spec fn verb_text(verb: Seq<u8>) -> Seq<char> {
    if valid_utf8(verb) {
        decode_utf8(verb)
    } else {
        "?"@
    }
}

/// The message carried by `NotSupported`, naming the offending verb.
pub open spec fn not_supported_message(verb: Seq<u8>) -> Seq<char> {
    "Command '"@ + verb_text(verb) + "' is not supported"@
}

/// Relies on `String::from_utf8`: it returns `Ok` exactly when the bytes
/// are valid UTF-8, and the returned string then holds their decoding.
#[verifier::external_body]
fn bytes_to_string(b: Vec<u8>) -> (r: Option<String>)
    ensures
        r is Some <==> valid_utf8(b@),
        r matches Some(s) ==> s@ == decode_utf8(b@),
{
    String::from_utf8(b).ok()
}

/// Builds the `NotSupported` command for an unrecognized verb.
fn not_supported(verb: Vec<u8>) -> (r: Command)
    ensures
        r@ == (CommandModel::NotSupported { message: not_supported_message(verb@) }),
{
    let mut msg = String::from_str("Command '");
    match bytes_to_string(verb) {
        Option::Some(s) => msg.append(s.as_str()),
        Option::None => msg.append("?"),
    }
    msg.append("' is not supported");
    Command::NotSupported(msg)
}

/// What the decoder yields for one complete request, as a function of the
/// token sequence: the single source of truth that `Command::parse` is
/// proved against.
pub open spec fn spec_parse(tokens: Seq<RESP>) -> CommandModel {
    if tokens.len() == 0 || token_bytes(tokens[0]) is None {
        CommandModel::Error { message: "Invalid command to parse"@ }
    } else {
        let verb = token_bytes(tokens[0])->0;
        if is_set_verb(verb) {
            if tokens.len() == 3 && token_bytes(tokens[1]) is Some && token_bytes(tokens[2])
                is Some {
                CommandModel::SET {
                    key: token_bytes(tokens[1])->0,
                    value: token_bytes(tokens[2])->0,
                }
            } else {
                CommandModel::Error { message: "wrong number of arguments for 'SET' command"@ }
            }
        } else if is_get_verb(verb) {
            if tokens.len() == 2 && token_bytes(tokens[1]) is Some {
                CommandModel::GET { key: token_bytes(tokens[1])->0 }
            } else {
                CommandModel::Error { message: "wrong number of arguments for 'GET' command"@ }
            }
        } else if is_del_verb(verb) {
            if tokens.len() == 2 && token_bytes(tokens[1]) is Some {
                CommandModel::DEL { key: token_bytes(tokens[1])->0 }
            } else {
                CommandModel::Error { message: "wrong number of arguments for 'DEL' command"@ }
            }
        } else if is_info_verb(verb) {
            CommandModel::INFO
        } else if is_ping_verb(verb) {
            CommandModel::PING
        } else if is_quit_verb(verb) {
            CommandModel::QUIT
        } else {
            CommandModel::NotSupported { message: not_supported_message(verb) }
        }
    }
}

impl Command {
    /// Decodes one complete request into exactly one `Command`. Never
    /// fails and never touches anything but its input: malformed requests,
    /// wrong arity and unsupported verbs all come back as `Error` or
    /// `NotSupported` values, exactly as `spec_parse` lays down.
    pub fn parse(v: Vec<RESP>) -> (r: Command)
        ensures
            r@ == spec_parse(v@),
    {
        if v.len() == 0 {
            return Command::Error("Invalid command to parse");
        }
        let verb = match get_bytes_vec(Option::Some(&v[0])) {
            Option::Some(b) => b,
            Option::None => {
                return Command::Error("Invalid command to parse");
            },
        };
        if matches_set_verb(&verb) {
            if v.len() != 3 {
                return Command::Error("wrong number of arguments for 'SET' command");
            }
            if let Option::Some(arg1) = get_bytes_vec(Option::Some(&v[1])) {
                if let Option::Some(arg2) = get_bytes_vec(Option::Some(&v[2])) {
                    return Command::SET(arg1, arg2);
                }
            }
            Command::Error("wrong number of arguments for 'SET' command")
        } else if matches_get_verb(&verb) {
            if v.len() != 2 {
                return Command::Error("wrong number of arguments for 'GET' command");
            }
            if let Option::Some(arg1) = get_bytes_vec(Option::Some(&v[1])) {
                return Command::GET(arg1);
            }
            Command::Error("wrong number of arguments for 'GET' command")
        } else if matches_del_verb(&verb) {
            if v.len() != 2 {
                return Command::Error("wrong number of arguments for 'DEL' command");
            }
            if let Option::Some(arg1) = get_bytes_vec(Option::Some(&v[1])) {
                return Command::DEL(arg1);
            }
            Command::Error("wrong number of arguments for 'DEL' command")
        } else if matches_info_verb(&verb) {
            Command::INFO
        } else if matches_ping_verb(&verb) {
            Command::PING
        } else if matches_quit_verb(&verb) {
            Command::QUIT
        } else {
            not_supported(verb)
        }
    }
}

/// Law: a request whose three tokens are a recognized SET spelling, a
/// textual key and a textual value decodes to `SET` carrying exactly
/// those key and value bytes.
pub proof fn lemma_set_decodes_key_value(tokens: Seq<RESP>, key: Seq<u8>, value: Seq<u8>)
    requires
        tokens.len() == 3,
        token_bytes(tokens[0]) matches Some(verb) && is_set_verb(verb),
        token_bytes(tokens[1]) == Some(key),
        token_bytes(tokens[2]) == Some(value),
    ensures
        spec_parse(tokens) == (CommandModel::SET { key, value }),
{
}

/// Law: a request whose two tokens are a recognized GET spelling and a
/// textual key decodes to `GET` carrying exactly those key bytes.
pub proof fn lemma_get_decodes_key(tokens: Seq<RESP>, key: Seq<u8>)
    requires
        tokens.len() == 2,
        token_bytes(tokens[0]) matches Some(verb) && is_get_verb(verb),
        token_bytes(tokens[1]) == Some(key),
    ensures
        spec_parse(tokens) == (CommandModel::GET { key }),
{
}

/// Law: a request whose two tokens are a recognized DEL spelling and a
/// textual key decodes to `DEL` carrying exactly those key bytes.
pub proof fn lemma_del_decodes_key(tokens: Seq<RESP>, key: Seq<u8>)
    requires
        tokens.len() == 2,
        token_bytes(tokens[0]) matches Some(verb) && is_del_verb(verb),
        token_bytes(tokens[1]) == Some(key),
    ensures
        spec_parse(tokens) == (CommandModel::DEL { key }),
{
}

/// Law: INFO, PING and QUIT take no argument-count check — a matching
/// first token alone decides, and trailing tokens are silently ignored.
pub proof fn lemma_no_arg_verbs_ignore_trailing(tokens: Seq<RESP>)
    requires
        tokens.len() >= 1,
        token_bytes(tokens[0]) is Some,
    ensures
        is_info_verb(token_bytes(tokens[0])->0) ==> spec_parse(tokens) == CommandModel::INFO,
        is_ping_verb(token_bytes(tokens[0])->0) ==> spec_parse(tokens) == CommandModel::PING,
        is_quit_verb(token_bytes(tokens[0])->0) ==> spec_parse(tokens) == CommandModel::QUIT,
{
}

/// Law: a textual verb outside the recognized set yields `NotSupported`,
/// whatever tokens follow, and the message names that verb.
pub proof fn lemma_unrecognized_verb(tokens: Seq<RESP>)
    requires
        tokens.len() >= 1,
        token_bytes(tokens[0]) matches Some(verb) && !is_set_verb(verb) && !is_get_verb(verb)
            && !is_del_verb(verb) && !is_info_verb(verb) && !is_ping_verb(verb) && !is_quit_verb(
            verb,
        ),
    ensures
        spec_parse(tokens) == (CommandModel::NotSupported {
            message: not_supported_message(token_bytes(tokens[0])->0),
        }),
{
}

/// Law: an empty request, or one whose first token is non-textual, is
/// malformed and yields the fixed invalid-command error.
pub proof fn lemma_malformed_request(tokens: Seq<RESP>)
    requires
        tokens.len() == 0 || token_bytes(tokens[0]) is None,
    ensures
        spec_parse(tokens) == (CommandModel::Error { message: "Invalid command to parse"@ }),
{
}

/// Law: decoding is deterministic and idempotent — two commands decoded
/// from the same token sequence are structurally equal.
pub proof fn lemma_parse_idempotent(c1: Command, c2: Command, tokens: Seq<RESP>)
    requires
        c1@ == spec_parse(tokens),
        c2@ == spec_parse(tokens),
    ensures
        c1.eq_spec(&c2),
{
}

} // verus!
