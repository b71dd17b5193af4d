//! The code that describes how a request is read: sources, fields and rename rules.

use crate::feature::{ParameterIn, RenameRule};
use crate::tokens::{
    ident_text, new_stream, nothing, paren, plain_word, punct, push_ident, seg, string,
    trees, Tree, TreeSeq,
};
use proc_macro2::{Ident, TokenStream};
use vstd::prelude::*;

verus! {

/// How a source is parsed.
#[derive(Clone, Copy, Debug, PartialEq, Eq, Structural)]
pub enum SourceParser {
    MultiMap,
    Smart,
}

/// The name of the source that a place of parameters is read from.
pub open spec fn source_from(place: ParameterIn) -> Seq<char> {
    match place {
        ParameterIn::Query => "Query"@,
        ParameterIn::Header => "Header"@,
        ParameterIn::Path => "Param"@,
        ParameterIn::Cookie => "Cookie"@,
    }
}

/// The name of a parser.
pub open spec fn parser_name(parser: SourceParser) -> Seq<char> {
    match parser {
        SourceParser::MultiMap => "MultiMap"@,
        SourceParser::Smart => "Smart"@,
    }
}

/// The name of a rule.
pub open spec fn rule_name(rule: RenameRule) -> Seq<char> {
    match rule {
        RenameRule::LowerCase => "LowerCase"@,
        RenameRule::UpperCase => "UpperCase"@,
        RenameRule::PascalCase => "PascalCase"@,
        RenameRule::CamelCase => "CamelCase"@,
        RenameRule::SnakeCase => "SnakeCase"@,
        RenameRule::ScreamingSnakeCase => "ScreamingSnakeCase"@,
        RenameRule::KebabCase => "KebabCase"@,
        RenameRule::ScreamingKebabCase => "ScreamingKebabCase"@,
    }
}

/// `before salvo::extract::metadata`
pub open spec fn metadata_path(before: Seq<Tree>, salvo: Seq<char>) -> Seq<Tree> {
    before.word(salvo).seg("extract"@).seg("metadata"@)
}

/// `path::Source::new(path::SourceFrom::.., path::SourceParser::..)` where `path` is
/// `salvo::extract::metadata`
pub open spec fn source_code(
    salvo: Seq<char>,
    place: ParameterIn,
    parser: SourceParser,
) -> Seq<Tree> {
    let from = metadata_path(nothing(), salvo).seg("SourceFrom"@).seg(source_from(place));
    let args = metadata_path(from.punct(','), salvo).seg("SourceParser"@).seg(parser_name(parser));
    metadata_path(nothing(), salvo).seg("Source"@).seg("new"@).paren(args)
}

/// `salvo::extract::metadata::Field::new("name")`
pub open spec fn field_code(salvo: Seq<char>, name: Seq<char>) -> Seq<Tree> {
    metadata_path(nothing(), salvo).seg("Field"@).seg("new"@).paren(nothing().string(name))
}

/// `salvo::extract::RenameRule::..`
pub open spec fn rule_code(salvo: Seq<char>, rule: RenameRule) -> Seq<Tree> {
    nothing().word(salvo).seg("extract"@).seg("RenameRule"@).seg(rule_name(rule))
}

/// The fixed words of the code are identifiers.
proof fn lemma_words()
    ensures
        plain_word("extract"@),
        plain_word("metadata"@),
        plain_word("Source"@),
        plain_word("new"@),
        plain_word("SourceFrom"@),
        plain_word("Query"@),
        plain_word("Header"@),
        plain_word("Param"@),
        plain_word("Cookie"@),
        plain_word("SourceParser"@),
        plain_word("MultiMap"@),
        plain_word("Smart"@),
        plain_word("Field"@),
        plain_word("RenameRule"@),
        plain_word("LowerCase"@),
        plain_word("UpperCase"@),
        plain_word("PascalCase"@),
        plain_word("CamelCase"@),
        plain_word("SnakeCase"@),
        plain_word("ScreamingSnakeCase"@),
        plain_word("KebabCase"@),
        plain_word("ScreamingKebabCase"@),
{
    reveal_strlit("extract");
    reveal_strlit("metadata");
    reveal_strlit("Source");
    reveal_strlit("new");
    reveal_strlit("SourceFrom");
    reveal_strlit("Query");
    reveal_strlit("Header");
    reveal_strlit("Param");
    reveal_strlit("Cookie");
    reveal_strlit("SourceParser");
    reveal_strlit("MultiMap");
    reveal_strlit("Smart");
    reveal_strlit("Field");
    reveal_strlit("RenameRule");
    reveal_strlit("LowerCase");
    reveal_strlit("UpperCase");
    reveal_strlit("PascalCase");
    reveal_strlit("CamelCase");
    reveal_strlit("SnakeCase");
    reveal_strlit("ScreamingSnakeCase");
    reveal_strlit("KebabCase");
    reveal_strlit("ScreamingKebabCase");
}

fn push_metadata_path(tokens: &mut TokenStream, salvo: &Ident)
    ensures
        trees(*final(tokens)) == metadata_path(trees(*old(tokens)), ident_text(*salvo)),
{
    proof {
        lemma_words();
    }
    push_ident(tokens, salvo);
    seg(tokens, "extract");
    seg(tokens, "metadata");
}

/// Writes the expression for a source.
pub fn quote_source(salvo: &Ident, place: ParameterIn, parser: SourceParser) -> (tokens:
    TokenStream)
    ensures
        trees(tokens) == source_code(ident_text(*salvo), place, parser),
{
    proof {
        lemma_words();
    }
    let mut args = new_stream();
    push_metadata_path(&mut args, salvo);
    seg(&mut args, "SourceFrom");
    let from: &str = match place {
        ParameterIn::Query => "Query",
        ParameterIn::Header => "Header",
        ParameterIn::Path => "Param",
        ParameterIn::Cookie => "Cookie",
    };
    seg(&mut args, from);
    punct(&mut args, ',');
    push_metadata_path(&mut args, salvo);
    seg(&mut args, "SourceParser");
    let parser: &str = match parser {
        SourceParser::MultiMap => "MultiMap",
        SourceParser::Smart => "Smart",
    };
    seg(&mut args, parser);
    let mut tokens = new_stream();
    push_metadata_path(&mut tokens, salvo);
    seg(&mut tokens, "Source");
    seg(&mut tokens, "new");
    paren(&mut tokens, args);
    tokens
}

/// Writes the expression for a field without options.
pub fn quote_field(salvo: &Ident, name: &str) -> (tokens: TokenStream)
    ensures
        trees(tokens) == field_code(ident_text(*salvo), name@),
{
    proof {
        lemma_words();
    }
    let mut args = new_stream();
    string(&mut args, name);
    let mut tokens = new_stream();
    push_metadata_path(&mut tokens, salvo);
    seg(&mut tokens, "Field");
    seg(&mut tokens, "new");
    paren(&mut tokens, args);
    tokens
}

/// Writes the expression for a rule.
pub fn quote_rename_rule(salvo: &Ident, rule: RenameRule) -> (tokens: TokenStream)
    ensures
        trees(tokens) == rule_code(ident_text(*salvo), rule),
{
    proof {
        lemma_words();
    }
    let name: &str = match rule {
        RenameRule::LowerCase => "LowerCase",
        RenameRule::UpperCase => "UpperCase",
        RenameRule::PascalCase => "PascalCase",
        RenameRule::CamelCase => "CamelCase",
        RenameRule::SnakeCase => "SnakeCase",
        RenameRule::ScreamingSnakeCase => "ScreamingSnakeCase",
        RenameRule::KebabCase => "KebabCase",
        RenameRule::ScreamingKebabCase => "ScreamingKebabCase",
    };
    let mut tokens = new_stream();
    push_ident(&mut tokens, salvo);
    seg(&mut tokens, "extract");
    seg(&mut tokens, "RenameRule");
    seg(&mut tokens, name);
    tokens
}

} // verus!
