//! Importing a dotenv file: its grammar, and merging what it holds into a
//! vault.

use crate::crypto::aead::AeadKey;
use crate::util::errors::{ObscuraError, ObscuraResult};
use crate::vault::aliases::{get_alias_spec, AliasesData};
use crate::vault::model::{envelope_fits, AliasDataView};
use crate::util::text::{
    chars_of, find_char, first_index_spec, lemma_first_index, text_of, trim_range, trim_spec,
};
use vstd::prelude::*;
use vstd::string::*;
use vstd::utf8::*;

verus! {

/// A name with its value.
pub type Pair = (Seq<char>, Seq<char>);

/// A value without the matching single or double quotes around it, if it
/// has them.
pub open spec fn unquote_spec(value: Seq<char>) -> Seq<char> {
    if value.len() >= 2 && ((value[0] == '"' && value.last() == '"') || (value[0] == '\''
        && value.last() == '\'')) {
        value.subrange(1, value.len() - 1)
    } else {
        value
    }
}

/// What one line of a dotenv file declares. The line is trimmed; a blank
/// line, a comment (`#`) and a line without `=` declare nothing. The first
/// `=` separates the name from the value, both trimmed, the value unquoted.
/// A line with an empty name declares nothing.
pub open spec fn parse_line_spec(line: Seq<char>) -> Option<Pair> {
    let trimmed = trim_spec(line);
    let at = first_index_spec(trimmed, '=');
    if trimmed.len() == 0 || trimmed[0] == '#' || at == trimmed.len() {
        None
    } else {
        let name = trim_spec(trimmed.take(at));
        let value = unquote_spec(trim_spec(trimmed.skip(at + 1)));
        if name.len() == 0 {
            None
        } else {
            Some((name, value))
        }
    }
}

/// What a dotenv text declares, line by line, in order.
pub open spec fn parse_env_spec(content: Seq<char>) -> Seq<Pair>
    decreases content.len(),
{
    if content.len() == 0 {
        Seq::empty()
    } else {
        let end = first_index_spec(content, '\n');
        let rest = if 0 <= end < content.len() {
            content.skip(end + 1)
        } else {
            Seq::empty()
        };
        match parse_line_spec(content.take(end)) {
            Some(pair) => seq![pair] + parse_env_spec(rest),
            None => parse_env_spec(rest),
        }
    }
}

/// The names and values of a list of string pairs.
pub open spec fn pairs_view(pairs: Seq<(String, String)>) -> Seq<Pair> {
    Seq::new(pairs.len(), |i: int| (pairs[i].0@, pairs[i].1@))
}

/// Parses the line `chars[from..to]`.
fn parse_line(chars: &Vec<char>, from: usize, to: usize) -> (declared: Option<(String, String)>)
    requires
        from <= to <= chars@.len(),
    ensures
        match parse_line_spec(chars@.subrange(from as int, to as int)) {
            Some(pair) => declared matches Some(found) && (found.0@, found.1@) == pair,
            None => declared is None,
        },
{
    let (a, b) = trim_range(chars, from, to);
    let ghost trimmed = chars@.subrange(a as int, b as int);
    if a == b {
        return None;
    }
    assert(trimmed[0] == chars@[a as int]);
    if chars[a] == '#' {
        return None;
    }
    let at = find_char(chars, a, b, '=');
    if at == b {
        return None;
    }
    let (ka, kb) = trim_range(chars, a, at);
    let (va, vb) = trim_range(chars, at + 1, b);
    proof {
        assert(trimmed.take(at - a) =~= chars@.subrange(a as int, at as int));
        assert(trimmed.skip(at - a + 1) =~= chars@.subrange(at + 1, b as int));
    }
    let ghost value = chars@.subrange(va as int, vb as int);
    let quoted = vb - va >= 2 && ((chars[va] == '"' && chars[vb - 1] == '"') || (chars[va] == '\''
        && chars[vb - 1] == '\''));
    proof {
        if value.len() >= 2 {
            assert(value[0] == chars@[va as int]);
            assert(value.last() == chars@[vb - 1]);
        }
    }
    let (ua, ub) = if quoted {
        (va + 1, vb - 1)
    } else {
        (va, vb)
    };
    proof {
        if quoted {
            assert(value.subrange(1, value.len() - 1) =~= chars@.subrange(ua as int, ub as int));
        }
    }
    if ka == kb {
        return None;
    }
    Some((text_of(chars, ka, kb), text_of(chars, ua, ub)))
}

/// Reads the declarations of a dotenv text. Every text is accepted; lines
/// that declare nothing are passed over.
pub fn parse_env_content(content: &str) -> (res: ObscuraResult<Vec<(String, String)>>)
    ensures
        res matches Ok(pairs) && pairs_view(pairs@) == parse_env_spec(content@),
{
    let chars = chars_of(content);
    let mut pairs: Vec<(String, String)> = Vec::new();
    let mut pos: usize = 0;
    let n = chars.len();
    proof {
        assert(chars@.skip(0) =~= chars@);
        assert(pairs_view(pairs@) + parse_env_spec(chars@) =~= parse_env_spec(chars@));
    }
    while pos < n
        invariant
            n == chars@.len(),
            pos <= n,
            parse_env_spec(chars@) == pairs_view(pairs@) + parse_env_spec(chars@.skip(pos as int)),
        decreases n - pos,
    {
        let end = find_char(&chars, pos, n, '\n');
        let ghost here = chars@.skip(pos as int);
        let ghost before = pairs_view(pairs@);
        proof {
            lemma_first_index(here, '\n');
            assert(here =~= chars@.subrange(pos as int, n as int));
            assert(here.take(end - pos) =~= chars@.subrange(pos as int, end as int));
            if end < n {
                assert(here.skip(end - pos + 1) =~= chars@.skip(end + 1));
            }
        }
        let declared = parse_line(&chars, pos, end);
        match declared {
            Some(pair) => {
                pairs.push(pair);
                assert(pairs_view(pairs@) =~= before + seq![(pair.0@, pair.1@)]);
            },
            None => {},
        }
        if end < n {
            pos = end + 1;
        } else {
            pos = n;
            assert(chars@.skip(n as int) =~= Seq::<char>::empty());
        }
        assert(parse_env_spec(chars@) =~= pairs_view(pairs@) + parse_env_spec(
            chars@.skip(pos as int),
        ));
    }
    assert(chars@.skip(n as int) =~= Seq::<char>::empty());
    assert(pairs_view(pairs@) + Seq::<Pair>::empty() =~= pairs_view(pairs@));
    assert(pairs_view(Seq::<(String, String)>::empty()) =~= Seq::<Pair>::empty());
    Ok(pairs)
}

/// The pairs that an import adds to a vault whose names are `present`, or
/// `None` where a value that would be added is too long to encrypt. A pair
/// whose name is present already, in the vault or earlier in the list, is
/// skipped.
pub open spec fn import_outcome(present: Set<Seq<char>>, pairs: Seq<Pair>) -> Option<Seq<Pair>>
    decreases pairs.len(),
{
    if pairs.len() == 0 {
        Some(Seq::empty())
    } else if present.contains(pairs[0].0) {
        import_outcome(present, pairs.drop_first())
    } else if !envelope_fits(encode_utf8(pairs[0].1).len()) {
        None
    } else {
        match import_outcome(present.insert(pairs[0].0), pairs.drop_first()) {
            Some(added) => Some(seq![pairs[0]] + added),
            None => None,
        }
    }
}

/// The names of a list of pairs.
pub open spec fn names_of(pairs: Seq<Pair>) -> Set<Seq<char>> {
    Set::new(
        |name: Seq<char>| exists|i: int| 0 <= i < pairs.len() && (#[trigger] pairs[i]).0 == name,
    )
}

/// How many declarations an import added and how many it skipped.
#[derive(Debug, Clone, Copy, PartialEq, Eq)]
pub struct ImportReport {
    pub added: usize,
    pub skipped: usize,
}

/// Adds to `aliases` every declared pair whose name is not present yet,
/// encrypting its value under `dek`; pairs with a present name are skipped,
/// never overwritten. Stops at the first value that cannot be encrypted.
pub fn import_entries(
    aliases: &mut AliasesData,
    env_vars: &Vec<(String, String)>,
    dek: &AeadKey,
) -> (res: ObscuraResult<ImportReport>)
    ensures
        res is Ok <==> import_outcome(old(aliases)@.dom(), pairs_view(env_vars@)) is Some,
        res matches Ok(report) ==> {
            let added = import_outcome(old(aliases)@.dom(), pairs_view(env_vars@))->0;
            &&& report.added == added.len()
            &&& report.added + report.skipped == env_vars@.len()
            &&& final(aliases)@.dom() == old(aliases)@.dom().union(names_of(added))
            &&& forall|name: Seq<char>| #[trigger]
                old(aliases)@.contains_key(name) ==> final(aliases)@[name] == old(aliases)@[name]
            &&& forall|i: int|
                0 <= i < added.len() ==> get_alias_spec(
                    final(aliases)@,
                    (#[trigger] added[i]).0,
                    dek@,
                ) == Ok::<Option<Seq<char>>, ObscuraError>(Some(added[i].1))
        },
        res matches Err(e) ==> e == ObscuraError::EncryptionFailed,
{
    let ghost all = pairs_view(env_vars@);
    let ghost start = aliases@;
    let ghost mut done: Seq<Pair> = Seq::empty();
    let mut added: usize = 0;
    let mut skipped: usize = 0;
    let mut i: usize = 0;
    proof {
        assert(all.skip(0) =~= all);
        assert(start.dom().union(names_of(done)) =~= start.dom());
        match import_outcome(start.dom(), all) {
            Some(rest) => {
                assert(done + rest =~= rest);
            },
            None => {},
        }
    }
    while i < env_vars.len()
        invariant
            i <= env_vars@.len(),
            all == pairs_view(env_vars@),
            start == old(aliases)@,
            added == done.len(),
            added + skipped == i,
            aliases@.dom() == start.dom().union(names_of(done)),
            forall|name: Seq<char>| #[trigger]
                start.contains_key(name) ==> aliases@[name] == start[name],
            forall|j: int|
                0 <= j < done.len() ==> get_alias_spec(
                    aliases@,
                    (#[trigger] done[j]).0,
                    dek@,
                ) == Ok::<Option<Seq<char>>, ObscuraError>(Some(done[j].1)),
            import_outcome(start.dom(), all) == match import_outcome(
                aliases@.dom(),
                all.skip(i as int),
            ) {
                Some(rest) => Some(done + rest),
                None => None,
            },
        decreases env_vars@.len() - i,
    {
        let ghost here = all.skip(i as int);
        let ghost before = aliases@;
        proof {
            assert(here[0] == all[i as int]);
            assert(here.drop_first() =~= all.skip(i + 1));
        }
        if aliases.contains(env_vars[i].0.as_str()) {
            skipped = skipped + 1;
        } else {
            let name = env_vars[i].0.clone();
            let value = env_vars[i].1.clone();
            match aliases.add_alias(name, value, dek) {
                Ok(()) => {},
                Err(_) => {
                    return Err(ObscuraError::EncryptionFailed);
                },
            }
            proof {
                let pair = all[i as int];
                let grown = done.push(pair);
                assert(names_of(grown) =~= names_of(done).insert(pair.0)) by {
                    assert forall|n: Seq<char>| names_of(grown).contains(n) <==> names_of(
                        done,
                    ).insert(pair.0).contains(n) by {
                        if names_of(grown).contains(n) {
                            let j = choose|j: int|
                                0 <= j < grown.len() && (#[trigger] grown[j]).0 == n;
                            if j < done.len() {
                                assert(done[j] == grown[j]);
                            }
                        }
                        if names_of(done).contains(n) {
                            let j = choose|j: int|
                                0 <= j < done.len() && (#[trigger] done[j]).0 == n;
                            assert(grown[j] == done[j]);
                        }
                        if n == pair.0 {
                            assert(grown[done.len() as int] == pair);
                        }
                    }
                }
                assert(aliases@.dom() =~= start.dom().union(names_of(grown)));
                assert forall|j: int| 0 <= j < grown.len() implies get_alias_spec(
                    aliases@,
                    (#[trigger] grown[j]).0,
                    dek@,
                ) == Ok::<Option<Seq<char>>, ObscuraError>(Some(grown[j].1)) by {
                    if j < done.len() {
                        assert(grown[j] == done[j]);
                        assert(names_of(done).contains(done[j].0));
                        assert(before.contains_key(done[j].0));
                    }
                }
                match import_outcome(aliases@.dom(), all.skip(i + 1)) {
                    Some(rest) => {
                        assert(done + (seq![pair] + rest) =~= grown + rest);
                    },
                    None => {},
                }
                assert(before.dom().insert(pair.0) =~= aliases@.dom());
                done = grown;
            }
            added = added + 1;
        }
        i = i + 1;
    }
    proof {
        assert(all.skip(i as int) =~= Seq::<Pair>::empty());
        assert(done + Seq::<Pair>::empty() =~= done);
    }
    Ok(ImportReport { added, skipped })
}

/// Importing pairs with distinct names and encryptable values into an empty
/// vault adds every one of them, in order.
pub proof fn lemma_import_into_fresh(present: Set<Seq<char>>, pairs: Seq<Pair>)
    requires
        forall|i: int| 0 <= i < pairs.len() ==> !present.contains((#[trigger] pairs[i]).0),
        forall|i: int, j: int|
            0 <= i < pairs.len() && 0 <= j < pairs.len() && i != j ==> (#[trigger] pairs[i]).0 != (
            #[trigger] pairs[j]).0,
        forall|i: int|
            0 <= i < pairs.len() ==> envelope_fits(encode_utf8((#[trigger] pairs[i]).1).len()),
    ensures
        import_outcome(present, pairs) == Some(pairs),
    decreases pairs.len(),
{
    if pairs.len() == 0 {
        assert(pairs =~= Seq::<Pair>::empty());
    } else {
        let rest = pairs.drop_first();
        let grown = present.insert(pairs[0].0);
        assert forall|i: int| 0 <= i < rest.len() implies !grown.contains(
            (#[trigger] rest[i]).0,
        ) by {
            assert(rest[i] == pairs[i + 1]);
        }
        assert forall|i: int, j: int|
            0 <= i < rest.len() && 0 <= j < rest.len() && i != j implies (#[trigger] rest[i]).0 != (
        #[trigger] rest[j]).0 by {
            assert(rest[i] == pairs[i + 1] && rest[j] == pairs[j + 1]);
        }
        assert forall|i: int| 0 <= i < rest.len() implies envelope_fits(
            encode_utf8((#[trigger] rest[i]).1).len(),
        ) by {
            assert(rest[i] == pairs[i + 1]);
        }
        lemma_import_into_fresh(grown, rest);
        assert(seq![pairs[0]] + rest =~= pairs);
    }
}

/// The names of a list of pairs, in order.
pub open spec fn name_list(pairs: Seq<Pair>) -> Seq<Seq<char>> {
    Seq::new(pairs.len(), |i: int| pairs[i].0)
}

/// A map that holds exactly the names of a list of pairs with distinct
/// names, each with its value, gives every value back under its name, gives
/// nothing under any other name, and holds as many aliases as the list has
/// pairs. This is the state of a fresh vault after the pairs were added or
/// imported, and it stays so over saving and reopening, which keep the key.
pub proof fn lemma_aliases_round_trip(
    aliases: Map<Seq<char>, AliasDataView>,
    pairs: Seq<Pair>,
    dek: Seq<u8>,
)
    requires
        aliases.dom() == names_of(pairs),
        name_list(pairs).no_duplicates(),
        forall|i: int|
            0 <= i < pairs.len() ==> get_alias_spec(aliases, (#[trigger] pairs[i]).0, dek) == Ok::<
                Option<Seq<char>>,
                ObscuraError,
            >(Some(pairs[i].1)),
    ensures
        forall|name: Seq<char>|
            !name_list(pairs).contains(name) ==> #[trigger] get_alias_spec(aliases, name, dek)
                == Ok::<Option<Seq<char>>, ObscuraError>(None),
        aliases.dom().finite(),
        aliases.len() == pairs.len(),
{
    let names = name_list(pairs);
    assert(names.to_set() =~= names_of(pairs)) by {
        assert forall|name: Seq<char>| names.to_set().contains(name) <==> names_of(
            pairs,
        ).contains(name) by {
            if names.contains(name) {
                let i = choose|i: int| 0 <= i < names.len() && names[i] == name;
                assert(pairs[i].0 == name);
            }
            if names_of(pairs).contains(name) {
                let i = choose|i: int| 0 <= i < pairs.len() && (#[trigger] pairs[i]).0 == name;
                assert(names[i] == name);
            }
        }
    }
    names.unique_seq_to_set();
    vstd::seq_lib::seq_to_set_is_finite(names);
    assert forall|name: Seq<char>| !names.contains(name) implies #[trigger] get_alias_spec(
        aliases,
        name,
        dek,
    ) == Ok::<Option<Seq<char>>, ObscuraError>(None) by {
        assert(!names.to_set().contains(name));
    }
}

/// The arguments of `import`.
#[derive(Debug, PartialEq, Eq)]
pub struct ImportArgs {
    pub env_file: String,
    pub global: bool,
    pub project: bool,
}

/// The scope flags that `import` resolves with: its own, as every command
/// does. Without a flag the project vault of the current directory is used
/// where it is present, else the global vault.
pub fn import_scope(args: &ImportArgs) -> (flags: (bool, bool))
    ensures
        flags == (args.global, args.project),
{
    (args.global, args.project)
}

/// What was found where the dotenv file was looked for.
#[derive(Debug, Clone, Copy, PartialEq, Eq, Structural)]
pub enum EnvFileProblem {
    Missing,
    NotAFile,
    Unreadable,
}

/// The message for a dotenv file that cannot be imported.
pub open spec fn env_file_message(problem: EnvFileProblem, env_file: Seq<char>) -> Seq<char> {
    match problem {
        EnvFileProblem::Missing => "Environment file '"@ + env_file
            + "' not found in current directory"@,
        EnvFileProblem::NotAFile => "'"@ + env_file + "' is not a file"@,
        EnvFileProblem::Unreadable => "Failed to read '"@ + env_file + "'"@,
    }
}

/// The error for a dotenv file that cannot be imported.
pub fn env_file_error(problem: EnvFileProblem, env_file: &str) -> (error: ObscuraError)
    ensures
        error matches ObscuraError::CustomError(m) && m@ == env_file_message(problem, env_file@),
{
    match problem {
        EnvFileProblem::Missing => {
            let mut message = String::from_str("Environment file '");
            message.append(env_file);
            message.append("' not found in current directory");
            ObscuraError::CustomError(message)
        },
        EnvFileProblem::NotAFile => {
            let mut message = String::from_str("'");
            message.append(env_file);
            message.append("' is not a file");
            ObscuraError::CustomError(message)
        },
        EnvFileProblem::Unreadable => {
            let mut message = String::from_str("Failed to read '");
            message.append(env_file);
            message.append("'");
            ObscuraError::CustomError(message)
        },
    }
}

} // verus!
