use obscura::cmd::export_dotenv::render_dotenv;
use obscura::cmd::import::{
    env_file_error, import_scope, parse_env_content, EnvFileProblem, ImportArgs,
};
use obscura::util::errors::ObscuraError;

fn pairs(items: &[(&str, &str)]) -> Vec<(String, String)> {
    items.iter().map(|(k, v)| (k.to_string(), v.to_string())).collect()
}

#[test]
fn parse_sample_file() {
    assert_eq!(
        parse_env_content("# comment\nFOO=bar\nBAZ=\"qux\"\n"),
        Ok(pairs(&[("FOO", "bar"), ("BAZ", "qux")]))
    );
}

#[test]
fn parse_empty_and_blank() {
    assert_eq!(parse_env_content(""), Ok(Vec::new()));
    assert_eq!(parse_env_content("\n\n   \n\t\n"), Ok(Vec::new()));
    assert_eq!(parse_env_content("# only a comment"), Ok(Vec::new()));
    assert_eq!(parse_env_content("   # indented comment\n"), Ok(Vec::new()));
}

#[test]
fn parse_trims_names_and_values() {
    assert_eq!(
        parse_env_content("  KEY  =  value with spaces  \r\nB=2\r\n"),
        Ok(pairs(&[("KEY", "value with spaces"), ("B", "2")]))
    );
}

#[test]
fn parse_splits_at_the_first_equals_sign() {
    assert_eq!(parse_env_content("URL=a=b=c"), Ok(pairs(&[("URL", "a=b=c")])));
    assert_eq!(parse_env_content("EMPTY="), Ok(pairs(&[("EMPTY", "")])));
    assert_eq!(parse_env_content("=value\nno_equals_sign\nOK=1"), Ok(pairs(&[("OK", "1")])));
    assert_eq!(parse_env_content("  = x"), Ok(Vec::new()));
}

#[test]
fn parse_strips_matching_quotes_only() {
    assert_eq!(parse_env_content("A='single'"), Ok(pairs(&[("A", "single")])));
    assert_eq!(parse_env_content("A=\"double\""), Ok(pairs(&[("A", "double")])));
    assert_eq!(parse_env_content("A=\"mixed'"), Ok(pairs(&[("A", "\"mixed'")])));
    assert_eq!(parse_env_content("A=\"\""), Ok(pairs(&[("A", "")])));
    assert_eq!(parse_env_content("A=\""), Ok(pairs(&[("A", "\"")])));
    assert_eq!(parse_env_content("A='"), Ok(pairs(&[("A", "'")])));
    assert_eq!(parse_env_content("A=\" padded \""), Ok(pairs(&[("A", " padded ")])));
    assert_eq!(parse_env_content("A=x\"y\""), Ok(pairs(&[("A", "x\"y\"")])));
}

#[test]
fn parse_keeps_order_and_duplicates() {
    assert_eq!(
        parse_env_content("B=1\nA=2\nB=3"),
        Ok(pairs(&[("B", "1"), ("A", "2"), ("B", "3")]))
    );
}

#[test]
fn parse_handles_last_line_without_newline_and_unicode() {
    assert_eq!(parse_env_content("A=1\nB=2"), Ok(pairs(&[("A", "1"), ("B", "2")])));
    assert_eq!(
        parse_env_content("\u{3000}NAME\u{a0}=\u{2003}wért \u{2028}\n"),
        Ok(pairs(&[("NAME", "wért")]))
    );
    assert_eq!(parse_env_content("A=#not a comment"), Ok(pairs(&[("A", "#not a comment")])));
}

#[test]
fn render_writes_one_line_per_pair() {
    assert_eq!(render_dotenv(&Vec::new()), "");
    assert_eq!(render_dotenv(&pairs(&[("API_KEY", "sk-test-42")])), "API_KEY=sk-test-42\n");
    assert_eq!(render_dotenv(&pairs(&[("A", "1"), ("B", ""), ("C", "x y")])), "A=1\nB=\nC=x y\n");
}

#[test]
fn render_then_parse_gives_safe_pairs_back() {
    let safe = pairs(&[("A", "1"), ("LONG_NAME", "a=b"), ("E", ""), ("Q", "it's \"ok\" here")]);
    assert_eq!(parse_env_content(&render_dotenv(&safe)), Ok(safe));
}

#[test]
fn render_then_parse_changes_unsafe_pairs() {
    let padded = pairs(&[("A", " x ")]);
    assert_eq!(parse_env_content(&render_dotenv(&padded)), Ok(pairs(&[("A", "x")])));
    let quoted = pairs(&[("A", "\"x\"")]);
    assert_eq!(parse_env_content(&render_dotenv(&quoted)), Ok(pairs(&[("A", "x")])));
    let multiline = pairs(&[("A", "1\nB=2")]);
    assert_eq!(
        parse_env_content(&render_dotenv(&multiline)),
        Ok(pairs(&[("A", "1"), ("B", "2")]))
    );
    let comment = pairs(&[("#A", "1")]);
    assert_eq!(parse_env_content(&render_dotenv(&comment)), Ok(Vec::new()));
}

#[test]
fn import_resolves_with_its_own_flags() {
    let mut args = ImportArgs { env_file: ".env".to_string(), global: false, project: false };
    assert_eq!(import_scope(&args), (false, false));
    args.project = true;
    assert_eq!(import_scope(&args), (false, true));
    args.global = true;
    assert_eq!(import_scope(&args), (true, true));
    args.project = false;
    assert_eq!(import_scope(&args), (true, false));
}

#[test]
fn env_file_errors_name_the_file() {
    assert_eq!(
        env_file_error(EnvFileProblem::Missing, "prod.env"),
        ObscuraError::CustomError(
            "Environment file 'prod.env' not found in current directory".to_string()
        )
    );
    assert_eq!(
        env_file_error(EnvFileProblem::NotAFile, "dir"),
        ObscuraError::CustomError("'dir' is not a file".to_string())
    );
    assert_eq!(
        env_file_error(EnvFileProblem::Unreadable, ".env"),
        ObscuraError::CustomError("Failed to read '.env'".to_string())
    );
}

fn by_lines(content: &str) -> Vec<(String, String)> {
    let mut found = Vec::new();
    for line in content.lines() {
        let line = line.trim();
        if line.is_empty() || line.starts_with('#') {
            continue;
        }
        if let Some(at) = line.find('=') {
            let name = line[..at].trim().to_string();
            let value = line[at + 1..].trim().to_string();
            let quoted = value.chars().count() >= 2
                && ((value.starts_with('"') && value.ends_with('"'))
                    || (value.starts_with('\'') && value.ends_with('\'')));
            let value = if quoted { value[1..value.len() - 1].to_string() } else { value };
            if !name.is_empty() {
                found.push((name, value));
            }
        }
    }
    found
}

#[test]
fn parse_agrees_with_line_by_line_reading() {
    let samples = [
        "",
        "\n",
        "A=1",
        "A=1\n",
        "A=1\r\nB=2\r\n",
        "A=1\rB=2",
        "\r\n\r\n",
        " A = 1 \n\tB\t=\t2\t\n",
        "# c\n#d=1\n  #e\nF=#g",
        "A==\n=B\n==\n=",
        "A='x'\nB=\"y\"\nC='z\"\nD=''\nE=\"\"\nF='\nG=\"",
        "Ä=ö\nKEY=値\n\u{2003}K\u{2003}=\u{2003}v\u{2003}",
        "A=1\n\nB=2\n\n\nC=3",
        "export A=1\nA B=2 3",
        "A=\" spaced \"  \nB=' '",
        "no equals here\nOK=yes\nanother line",
        "A=1\u{2028}B=2\nC=3\u{85}",
        "A=1\u{b}\nB=2\u{c}\n",
        "\u{feff}A=1\n",
    ];
    for sample in samples {
        assert_eq!(parse_env_content(sample), Ok(by_lines(sample)), "{:?}", sample);
    }
}
