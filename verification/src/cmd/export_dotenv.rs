//! Exporting a vault as dotenv text.

use crate::cmd::import::{pairs_view, parse_env_spec, parse_line_spec, unquote_spec, Pair};
use crate::cmd::run::{all_decrypt, decrypted_pairs, get_secrets_as_env_vars};
use crate::crypto::aead::AeadKey;
use crate::util::errors::{ObscuraError, ObscuraResult};
use crate::vault::aliases::AliasesData;
use crate::util::text::{is_space_spec, lemma_first_index_is, lemma_trim_identity};
use vstd::prelude::*;
use vstd::string::*;

verus! {

/// The dotenv line of one pair: `NAME=VALUE` and a newline.
pub open spec fn render_line_spec(pair: Pair) -> Seq<char> {
    pair.0 + seq!['='] + pair.1 + seq!['\n']
}

/// The dotenv text of a list of pairs: one line each, in order.
pub open spec fn render_dotenv_spec(pairs: Seq<Pair>) -> Seq<char>
    decreases pairs.len(),
{
    if pairs.len() == 0 {
        Seq::empty()
    } else {
        render_line_spec(pairs[0]) + render_dotenv_spec(pairs.drop_first())
    }
}

/// Writes pairs as dotenv text.
pub fn render_dotenv(pairs: &Vec<(String, String)>) -> (text: String)
    ensures
        text@ == render_dotenv_spec(pairs_view(pairs@)),
{
    let ghost all = pairs_view(pairs@);
    let mut text = String::new();
    let mut i: usize = 0;
    proof {
        assert(all.skip(0) =~= all);
        assert(text@ + render_dotenv_spec(all) =~= render_dotenv_spec(all));
    }
    while i < pairs.len()
        invariant
            i <= pairs@.len(),
            all == pairs_view(pairs@),
            render_dotenv_spec(all) == text@ + render_dotenv_spec(all.skip(i as int)),
        decreases pairs@.len() - i,
    {
        let ghost before = text@;
        let ghost here = all.skip(i as int);
        text.append(pairs[i].0.as_str());
        text.push('=');
        text.append(pairs[i].1.as_str());
        text.push('\n');
        proof {
            assert(here[0] == all[i as int]);
            assert(here.drop_first() =~= all.skip(i + 1));
            assert(text@ =~= before + render_line_spec(all[i as int]));
            assert(before + (render_line_spec(here[0]) + render_dotenv_spec(here.drop_first()))
                =~= (before + render_line_spec(here[0])) + render_dotenv_spec(here.drop_first()));
        }
        i = i + 1;
    }
    proof {
        assert(all.skip(i as int) =~= Seq::<Pair>::empty());
        assert(text@ + Seq::<char>::empty() =~= text@);
    }
    text
}

/// The pairs whose dotenv line reads back as the pair itself: a name that is
/// not empty, holds no newline and no `=`, does not begin with `#` and has
/// no white space at either end; a value that holds no newline, has no
/// white space at either end and is not wrapped in matching quotes.
pub open spec fn dotenv_safe(pair: Pair) -> bool {
    let name = pair.0;
    let value = pair.1;
    &&& name.len() > 0
    &&& forall|i: int| 0 <= i < name.len() ==> name[i] != '\n' && name[i] != '='
    &&& name[0] != '#'
    &&& !is_space_spec(name[0])
    &&& !is_space_spec(name.last())
    &&& forall|i: int| 0 <= i < value.len() ==> value[i] != '\n'
    &&& value.len() > 0 ==> !is_space_spec(value[0]) && !is_space_spec(value.last())
    &&& unquote_spec(value) == value
}

/// The line `NAME=VALUE` of a safe pair declares exactly that pair.
pub proof fn lemma_safe_line_parses(pair: Pair)
    requires
        dotenv_safe(pair),
    ensures
        parse_line_spec(pair.0 + seq!['='] + pair.1) == Some(pair),
{
    let name = pair.0;
    let value = pair.1;
    let line = name + seq!['='] + value;
    assert(line[0] == name[0]);
    assert(!is_space_spec('='));
    if value.len() > 0 {
        assert(line.last() == value.last());
    } else {
        assert(line.last() == '=');
    }
    lemma_trim_identity(line);
    assert forall|i: int| 0 <= i < name.len() implies line[i] != '=' by {
        assert(line[i] == name[i]);
    }
    assert(line[name.len() as int] == '=');
    lemma_first_index_is(line, '=', name.len() as int);
    assert(line.take(name.len() as int) =~= name);
    assert(line.skip(name.len() as int + 1) =~= value);
    lemma_trim_identity(name);
    lemma_trim_identity(value);
}

/// Reading back the dotenv text of safe pairs gives the pairs, in order.
pub proof fn lemma_dotenv_round_trip(pairs: Seq<Pair>)
    requires
        forall|i: int| 0 <= i < pairs.len() ==> dotenv_safe(#[trigger] pairs[i]),
    ensures
        parse_env_spec(render_dotenv_spec(pairs)) == pairs,
    decreases pairs.len(),
{
    if pairs.len() == 0 {
        assert(parse_env_spec(render_dotenv_spec(pairs)) =~= pairs);
    } else {
        let pair = pairs[0];
        let rest = pairs.drop_first();
        assert(dotenv_safe(pair));
        assert forall|i: int| 0 <= i < rest.len() implies dotenv_safe(#[trigger] rest[i]) by {
            assert(rest[i] == pairs[i + 1]);
        }
        lemma_dotenv_round_trip(rest);
        let line = pair.0 + seq!['='] + pair.1;
        let tail = render_dotenv_spec(rest);
        let content = render_dotenv_spec(pairs);
        assert(content =~= line + seq!['\n'] + tail);
        let end = line.len() as int;
        assert forall|i: int| 0 <= i < end implies content[i] != '\n' by {
            assert(content[i] == line[i]);
            if i < pair.0.len() {
                assert(line[i] == pair.0[i]);
            } else if i == pair.0.len() {
                assert(line[i] == '=');
            } else {
                assert(line[i] == pair.1[i - pair.0.len() - 1]);
            }
        }
        assert(content[end] == '\n');
        lemma_first_index_is(content, '\n', end);
        assert(content.take(end) =~= line);
        assert(content.skip(end + 1) =~= tail);
        lemma_safe_line_parses(pair);
        assert(seq![pair] + rest =~= pairs);
    }
}

/// The arguments of `export --dotenv`.
#[derive(Debug, PartialEq, Eq)]
pub struct ExportDotenvArgs {
    pub global: bool,
    pub project: bool,
    pub output: Option<String>,
    pub overwrite: bool,
}

/// The dotenv text that `export` writes: one `NAME=VALUE` line per alias,
/// in listing order. Fails where a stored value does not decrypt.
pub fn handle_export_dotenv(aliases: &AliasesData, dek: &AeadKey) -> (res: ObscuraResult<String>)
    ensures
        res is Ok <==> all_decrypt(aliases@, aliases.names(), dek@),
        res matches Ok(text) ==> text@ == render_dotenv_spec(
            decrypted_pairs(aliases@, aliases.names(), dek@),
        ),
        res matches Err(e) ==> e == ObscuraError::DecryptionFailed,
{
    let env_vars = get_secrets_as_env_vars(aliases, dek)?;
    Ok(render_dotenv(&env_vars))
}

/// Whether the export may write its output file: a file that is there
/// already is refused, naming it, unless overwriting was asked for. Without
/// an output file the text goes to standard output and nothing is checked.
pub fn check_output(args: &ExportDotenvArgs, output_exists: bool) -> (res: ObscuraResult<()>)
    ensures
        match args.output {
            Some(path) => if output_exists && !args.overwrite {
                res matches Err(ObscuraError::FileExists(named)) && named@ == path@
            } else {
                res is Ok
            },
            None => res is Ok,
        },
{
    match &args.output {
        Some(path) => if output_exists && !args.overwrite {
            Err(ObscuraError::FileExists(path.clone()))
        } else {
            Ok(())
        },
        None => Ok(()),
    }
}

} // verus!
