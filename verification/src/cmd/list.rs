//! Listing the aliases of a vault, sorted.

use crate::util::errors::{ObscuraError, ObscuraResult};
use crate::util::text::{sort_texts, sorted_spec, texts};
use crate::vault::aliases::AliasesData;
use vstd::prelude::*;
use vstd::string::*;

verus! {

/// The arguments of `list`.
#[derive(Debug, PartialEq, Eq)]
pub struct ListArgs {
    pub global: bool,
    pub project: bool,
    pub json: bool,
}

/// The compact JSON array of a list of strings.
pub uninterp spec fn spec_json_strings(names: Seq<Seq<char>>) -> Seq<char>;

/// Calls `serde_json::to_string` on a list of strings: the named compact
/// JSON array. A list of strings always serializes: the serializer fails
/// only where a value refuses to be serialized or the writer fails, and
/// strings do not refuse and the writer is a byte vector.
#[verifier::external_body]
fn json_strings(names: &Vec<String>) -> (res: Result<String, serde_json::Error>)
    ensures
        res is Ok,
        res matches Ok(text) ==> text@ == spec_json_strings(texts(names@)),
{
    serde_json::to_string(names)
}

/// The alias names in sorted order.
pub fn sorted_aliases(aliases: &AliasesData) -> (names: Vec<String>)
    ensures
        texts(names@) == sorted_spec(aliases.names()),
        texts(names@).to_multiset() == aliases.names().to_multiset(),
{
    let listed = aliases.list_aliases();
    sort_texts(&listed)
}

/// The plain listing: one name per line.
pub open spec fn plain_list_spec(names: Seq<Seq<char>>) -> Seq<char>
    decreases names.len(),
{
    if names.len() == 0 {
        Seq::empty()
    } else {
        names[0] + seq!['\n'] + plain_list_spec(names.drop_first())
    }
}

/// The JSON listing around an array text: `{"aliases":` array `}` and a
/// newline.
pub open spec fn json_list_spec(array: Seq<char>) -> Seq<char> {
    "{\"aliases\":"@ + array + "}\n"@
}

/// Writes names one per line.
pub fn plain_list(names: &Vec<String>) -> (text: String)
    ensures
        text@ == plain_list_spec(texts(names@)),
{
    let ghost all = texts(names@);
    let mut text = String::new();
    let mut i: usize = 0;
    proof {
        assert(all.skip(0) =~= all);
        assert(text@ + plain_list_spec(all) =~= plain_list_spec(all));
    }
    while i < names.len()
        invariant
            i <= names@.len(),
            all == texts(names@),
            plain_list_spec(all) == text@ + plain_list_spec(all.skip(i as int)),
        decreases names@.len() - i,
    {
        let ghost before = text@;
        let ghost here = all.skip(i as int);
        text.append(names[i].as_str());
        text.push('\n');
        proof {
            assert(here[0] == all[i as int]);
            assert(here.drop_first() =~= all.skip(i + 1));
            assert(text@ =~= before + (here[0] + seq!['\n']));
            assert(before + (here[0] + seq!['\n'] + plain_list_spec(here.drop_first())) =~= (before
                + (here[0] + seq!['\n'])) + plain_list_spec(here.drop_first()));
        }
        i = i + 1;
    }
    proof {
        assert(all.skip(i as int) =~= Seq::<Seq<char>>::empty());
        assert(text@ + Seq::<char>::empty() =~= text@);
    }
    text
}

/// Wraps a JSON array text into the listing object.
pub fn json_list(array: &str) -> (text: String)
    ensures
        text@ == json_list_spec(array@),
{
    let mut text = String::from_str("{\"aliases\":");
    text.append(array);
    text.append("}\n");
    text
}

/// The text that `list` writes: the alias names in sorted order, one per
/// line, or as the JSON object `{"aliases":[...]}`.
pub fn handle_list(args: &ListArgs, aliases: &AliasesData) -> (res: ObscuraResult<String>)
    ensures
        res matches Ok(text) && text@ == if args.json {
            json_list_spec(spec_json_strings(sorted_spec(aliases.names())))
        } else {
            plain_list_spec(sorted_spec(aliases.names()))
        },
{
    let names = sorted_aliases(aliases);
    if args.json {
        match json_strings(&names) {
            Ok(array) => Ok(json_list(array.as_str())),
            Err(error) => Err(ObscuraError::from(error)),
        }
    } else {
        Ok(plain_list(&names))
    }
}

} // verus!
