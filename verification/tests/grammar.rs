//! Holds the parser against the grammar of configuration blocks written
//! down with parser combinators, on every text made of up to four lines of
//! a pool.

use bois::state::file_parser::config_file;
use winnow::ascii::{newline, space0, till_line_ending};
use winnow::combinator::{
    alt, cut_err, delimited, not, opt, preceded, repeat, separated, terminated,
};
use winnow::token::rest;
use winnow::{ModalResult, Parser};

type Prefixes = (
    &'static str,
    &'static str,
    &'static str,
    &'static str,
    &'static str,
    &'static str,
    &'static str,
    &'static str,
);

fn prefixes() -> Prefixes {
    ("//", "--", "*/", "/*", "**", "*", "#", "%")
}

fn delimiter<'s>(input: &mut &'s str) -> ModalResult<&'s str> {
    delimited(alt(prefixes()), delimited(space0, "bois_config", space0), newline).parse_next(input)
}

fn lines_before(input: &mut &str) -> ModalResult<()> {
    separated(1.., preceded(not(delimiter), till_line_ending), newline).parse_next(input)
}

fn before<'s>(input: &mut &'s str) -> ModalResult<&'s str> {
    terminated(lines_before.take(), opt(newline)).parse_next(input)
}

fn block<'s>(input: &mut &'s str) -> ModalResult<Vec<&'s str>> {
    let _ = delimiter.parse_next(input)?;
    cut_err(terminated(
        repeat(
            1..,
            delimited(
                alt(prefixes()),
                preceded(not((space0, "bois_config")), till_line_ending),
                newline,
            ),
        ),
        delimiter,
    ))
    .parse_next(input)
}

type Parts = (Option<String>, Option<String>, Option<String>);

fn file(input: &mut &str) -> ModalResult<Parts> {
    let (pre, lines, post) = (opt(before), opt(block), opt(rest)).parse_next(input)?;
    Ok((
        pre.map(str::to_string),
        lines.map(|lines| without_indentation(&lines)),
        post.and_then(|text| (!text.is_empty()).then_some(text.to_string())),
    ))
}

fn without_indentation(lines: &[&str]) -> String {
    let width = lines
        .iter()
        .filter(|line| !line.trim().is_empty())
        .map(|line| line.chars().take_while(|c| c.is_whitespace()).count())
        .min()
        .unwrap_or(0);
    let lines: Vec<String> = lines
        .iter()
        .map(|line| {
            if line.trim().is_empty() {
                line.to_string()
            } else {
                line.chars().skip(width).collect()
            }
        })
        .collect();
    lines.join("\n")
}

fn expected(input: &str) -> Option<Parts> {
    file.parse(input).ok()
}

fn found(input: &str) -> Option<Parts> {
    config_file(input).ok().map(|parsed| {
        (
            parsed.pre_config_block.map(str::to_string),
            parsed.config_block,
            parsed.post_config_block.map(str::to_string),
        )
    })
}

fn pool() -> Vec<&'static str> {
    vec![
        "# bois_config",
        "//bois_config  ",
        "#\tbois_config",
        "# a: 1",
        "#   b: 2",
        "//c",
        "**  d",
        "*/e",
        "/* f",
        "* g",
        "-- h",
        "% i",
        "# ",
        "#",
        "plain",
        "",
        " # bois_config",
        "# bois_config_x",
        "#  bois_config y",
        "bois_config",
        "*# bois_config",
    ]
}

fn check(lines: &[&str]) {
    let joined = lines.join("\n");
    for input in [joined.clone(), format!("{joined}\n")] {
        assert_eq!(found(&input), expected(&input), "{input:?}");
    }
}

#[test]
fn parser_agrees_with_the_grammar_on_short_texts() {
    let pool = pool();
    check(&[]);
    for one in &pool {
        check(&[one]);
        for two in &pool {
            check(&[one, two]);
            for three in &pool {
                check(&[one, two, three]);
            }
        }
    }
}

#[test]
fn parser_agrees_with_the_grammar_on_texts_of_four_lines() {
    let pool = pool();
    for one in &pool {
        for two in &pool {
            for three in &pool {
                for four in &pool {
                    check(&[one, two, three, four]);
                }
            }
        }
    }
}

#[test]
fn parser_agrees_with_the_grammar_around_a_block() {
    let pool = pool();
    for before in &pool {
        for first in &pool {
            for second in &pool {
                for after in &pool {
                    check(&[before, "# bois_config", first, second, "// bois_config", after]);
                    check(&["# bois_config", before, first, "*/ bois_config", second, after]);
                }
            }
        }
    }
}
