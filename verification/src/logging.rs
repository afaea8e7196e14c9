//! Log-message construction for the three kinds of logging macros: a
//! function-style message with timestamp substitution, a derive-style
//! trait with a per-field marker suffix, and an attribute-style call
//! announcement. The macro front ends only turn syntax into plain
//! words and field descriptions; every message is assembled and
//! specified here.
use vstd::prelude::*;
use vstd::string::StringExecFns;

verus! {

/// What a deriving type can do: log a message through its derived
/// implementation.
pub trait Log {
    /// Logs `input` through the derived implementation.
    fn log_derive(&self, input: &str);
}

/// Returns its argument unchanged; the call announcement around it is
/// the attribute macro's business, not this function's.
pub fn toto(val: u8) -> (r: u8)
    ensures
        r == val,
{
    val
}

/// Relies on chrono's `Utc::now`: the current time of day rendered as
/// text; nothing is promised of a clock reading.
#[verifier::external_body]
fn current_time_string() -> (r: String) {
    chrono::Utc::now().time().to_string()
}

/// The words of a function-style log message, each prefixed by one
/// space, with every word `TIME` replaced by the timestamp.
pub open spec fn log_words_spec(words: Seq<Seq<char>>, timestamp: Seq<char>) -> Seq<char>
    decreases words.len(),
{
    if words.len() == 0 {
        Seq::empty()
    } else {
        log_words_spec(words.drop_last(), timestamp) + " "@ + if words.last() == "TIME"@ {
            timestamp
        } else {
            words.last()
        }
    }
}

/// A whole function-style log message for these words and timestamp.
pub open spec fn function_log_spec(words: Seq<Seq<char>>, timestamp: Seq<char>) -> Seq<char> {
    "[function proc macro] "@ + log_words_spec(words, timestamp)
}

/// The views of a sequence of words.
pub open spec fn word_views(words: Seq<String>) -> Seq<Seq<char>> {
    Seq::new(words.len(), |i: int| words[i]@)
}

/// Assembles the function-style message from already-split words and a
/// given timestamp: each word is prefixed by a space, and the word
/// `TIME` is replaced by the timestamp.
pub fn expand_log_message(words: &Vec<String>, timestamp: &str) -> (r: String)
    ensures
        r@ == function_log_spec(word_views(words@), timestamp@),
{
    let time_word = String::from_str("TIME");
    proof {
        reveal_strlit("TIME");
    }
    let mut out = String::from_str("[function proc macro] ");
    let mut i: usize = 0;
    while i < words.len()
        invariant
            0 <= i <= words@.len(),
            time_word@ == "TIME"@,
            out@ == "[function proc macro] "@ + log_words_spec(
                word_views(words@).take(i as int),
                timestamp@,
            ),
        decreases words@.len() - i,
    {
        out.append(" ");
        if words[i].eq(&time_word) {
            out.append(timestamp);
        } else {
            out.append(words[i].as_str());
        }
        proof {
            let ws = word_views(words@);
            assert(ws.take(i + 1 as int).drop_last() =~= ws.take(i as int));
            assert(ws.take(i + 1 as int).last() == words@[i as int]@);
        }
        i = i + 1;
    }
    proof {
        assert(word_views(words@).take(words@.len() as int) =~= word_views(words@));
    }
    out
}

/// Builds the function-style log message with the current time of day
/// as the timestamp: the substitution is exact for whatever the clock
/// returned.
pub fn function_log_message(words: &Vec<String>) -> (r: String)
    ensures
        exists|timestamp: Seq<char>| r@ == function_log_spec(word_views(words@), timestamp),
{
    let timestamp = current_time_string();
    let r = expand_log_message(words, timestamp.as_str());
    proof {
        assert(r@ == function_log_spec(word_views(words@), timestamp@));
    }
    r
}

/// The marker suffix contributed by one field description: named and
/// quoted if the field carries the marker, nothing otherwise.
pub open spec fn field_suffix_spec(name: Seq<char>, marked: bool) -> Seq<char> {
    if marked {
        " | \""@ + name + "\" is toto"@
    } else {
        Seq::empty()
    }
}

/// The whole marker suffix of a derive-style log message.
pub open spec fn toto_suffix_spec(fields: Seq<(Seq<char>, bool)>) -> Seq<char>
    decreases fields.len(),
{
    if fields.len() == 0 {
        Seq::empty()
    } else {
        toto_suffix_spec(fields.drop_last()) + field_suffix_spec(
            fields.last().0,
            fields.last().1,
        )
    }
}

/// The views of a sequence of field descriptions.
pub open spec fn field_views(fields: Seq<(String, bool)>) -> Seq<(Seq<char>, bool)> {
    Seq::new(fields.len(), |i: int| (fields[i].0@, fields[i].1))
}

/// Assembles the marker suffix from field descriptions — each field's
/// name with whether it carries the marker attribute. Field names are
/// plain identifiers, so quoting them needs no escaping.
pub fn toto_fields_suffix(fields: &Vec<(String, bool)>) -> (r: String)
    ensures
        r@ == toto_suffix_spec(field_views(fields@)),
{
    let mut out = String::new();
    let mut i: usize = 0;
    while i < fields.len()
        invariant
            0 <= i <= fields@.len(),
            out@ == toto_suffix_spec(field_views(fields@).take(i as int)),
        decreases fields@.len() - i,
    {
        if fields[i].1 {
            out.append(" | \"");
            out.append(fields[i].0.as_str());
            out.append("\" is toto");
        }
        proof {
            let fs = field_views(fields@);
            assert(fs.take(i + 1 as int).drop_last() =~= fs.take(i as int));
            assert(fs.take(i + 1 as int).last() == (fields@[i as int].0@, fields@[i as int].1));
        }
        i = i + 1;
    }
    proof {
        assert(field_views(fields@).take(fields@.len() as int) =~= field_views(fields@));
    }
    out
}

/// The announcement an attribute-style log inserts at the head of a
/// function: the function's name, quoted, and the attribute's argument.
pub open spec fn attribute_log_spec(func_name: Seq<char>, attr_arg: Seq<char>) -> Seq<char> {
    "[attribute proc macro] Called the function \""@ + func_name
        + "\" with attribute macro arg \""@ + attr_arg + "\""@
}

/// Assembles the attribute-style call announcement.
pub fn attribute_log_message(func_name: &str, attr_arg: &str) -> (r: String)
    ensures
        r@ == attribute_log_spec(func_name@, attr_arg@),
{
    let mut out = String::from_str("[attribute proc macro] Called the function \"");
    out.append(func_name);
    out.append("\" with attribute macro arg \"");
    out.append(attr_arg);
    out.append("\"");
    out
}

} // verus!
