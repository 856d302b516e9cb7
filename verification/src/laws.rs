//! What holds of scanning and of writing, for every declaration.
use vstd::prelude::*;
use crate::emit::{expansion, impl_text, rendered, DECRYPT_METHOD, ENCRYPT_METHOD, NO_NAME_FOUND};
use crate::scan::{
    captured, has_name, is_kind, is_pub, lemma_name_at_unique, lemma_scanned_at, name_at,
    name_index, names_type, qualifier, scanned, DeclarationView,
};
use crate::token::{Kind, Tok};

verus! {

/// A visibility qualifier as the language writes it: none at all, `pub`
/// alone, or `pub` with one group after it, as in `pub(crate)` and
/// `pub(in some::path)`.
pub open spec fn is_qualifier(vis: Seq<Tok>) -> bool {
    ||| vis.len() == 0
    ||| vis.len() == 1 && is_pub(vis[0])
    ||| vis.len() == 2 && is_pub(vis[0]) && vis[1].kind == Kind::Group
}

/// The three keywords that the scanner knows differ from each other.
pub proof fn lemma_keywords_differ()
    ensures
        "pub"@ != "struct"@,
        "pub"@ != "enum"@,
        "struct"@ != "enum"@,
{
    reveal_strlit("pub");
    reveal_strlit("struct");
    reveal_strlit("enum");
    assert("pub"@.len() == 3);
    assert("struct"@.len() == 6);
    assert("enum"@.len() == 4);
}

/// The qualifier among the first `upto` tokens depends on those tokens only.
pub proof fn lemma_qualifier_of_prefix(tokens: Seq<Tok>, other: Seq<Tok>, upto: int)
    requires
        0 <= upto <= tokens.len(),
        upto <= other.len(),
        forall|at: int| 0 <= at < upto ==> tokens[at] == other[at],
    ensures
        qualifier(tokens, upto) == qualifier(other, upto),
    decreases upto,
{
    if upto > 0 {
        lemma_qualifier_of_prefix(tokens, other, upto - 1);
    }
}

/// Tokens that are no identifiers, standing first, add nothing to the
/// qualifier.
pub proof fn lemma_qualifier_skips_lead(tokens: Seq<Tok>, upto: int)
    requires
        0 <= upto <= tokens.len(),
        forall|at: int| 0 <= at < upto ==> (#[trigger] tokens[at]).kind != Kind::Ident,
    ensures
        qualifier(tokens, upto) == Seq::<Tok>::empty(),
    decreases upto,
{
    if upto > 0 {
        lemma_qualifier_skips_lead(tokens, upto - 1);
        if upto > 1 {
            assert(!is_pub(tokens[upto - 2]));
        }
        assert(!captured(tokens, upto - 1));
    }
}

/// The scanner reads nothing after the name: whatever follows a declaration
/// that has a name, generic parameters, bounds, a `where` clause or the body,
/// the name and the visibility stay those of the declaration alone.
pub proof fn lemma_scan_stops_at_name(head: Seq<Tok>, rest: Seq<Tok>)
    requires
        has_name(head),
    ensures
        scanned(head + rest) == scanned(head),
{
    let at = name_index(head);
    let all = head + rest;
    assert forall|before: int| 0 <= before <= at implies all[before] == head[before] by {}
    assert(name_at(all, at)) by {
        assert forall|before: int| 0 <= before < at implies !names_type(#[trigger] all[before]) by {
            assert(all[before] == head[before]);
        }
    }
    lemma_qualifier_of_prefix(all, head, at);
    lemma_scanned_at(all, at);
    lemma_scanned_at(head, at);
}

/// A declaration is scanned for what it declares.  Take any attributes
/// first (tokens that are no identifiers), then a visibility qualifier, then
/// `struct` or `enum`, then the name, then anything at all: the scanner finds
/// that name and that qualifier.  The name is never taken from what follows
/// it, and never from inside the group of a scoped qualifier, which is one
/// token to the scanner.
pub proof fn lemma_scan_finds_declaration(
    lead: Seq<Tok>,
    vis: Seq<Tok>,
    kind: Tok,
    name: Tok,
    rest: Seq<Tok>,
)
    requires
        forall|at: int| 0 <= at < lead.len() ==> (#[trigger] lead[at]).kind != Kind::Ident,
        is_qualifier(vis),
        is_kind(kind),
        names_type(name),
    ensures
        scanned(lead + vis + seq![kind, name] + rest) == Some(
            DeclarationView { vis, name: name.text },
        ),
{
    lemma_keywords_differ();
    let all = lead + vis + seq![kind, name] + rest;
    let start = lead.len() as int;
    let at = start + vis.len() + 1;
    assert forall|before: int| 0 <= before < start implies all[before] == lead[before] by {}
    assert forall|inside: int| 0 <= inside < vis.len() implies all[start + inside]
        == vis[inside] by {}
    assert(all[at - 1] == kind);
    assert(all[at] == name);
    assert(name_at(all, at)) by {
        assert forall|before: int| 0 <= before < at implies !names_type(#[trigger] all[before]) by {
            if before < start {
                assert(all[before] == lead[before]);
            } else if before < at - 1 {
                assert(all[before] == vis[before - start]);
            }
        }
    }
    assert(qualifier(all, at) == vis) by {
        assert forall|before: int| 0 <= before < start implies (#[trigger] all[before]).kind
            != Kind::Ident by {
            assert(all[before] == lead[before]);
        }
        lemma_qualifier_skips_lead(all, start);
        if start > 0 {
            assert(!is_pub(all[start - 1]));
        }
        if vis.len() >= 1 {
            assert(all[start] == vis[0]);
            assert(captured(all, start));
            assert(qualifier(all, start + 1) == seq![vis[0]]);
        }
        if vis.len() == 2 {
            assert(all[start + 1] == vis[1]);
            assert(captured(all, start + 1));
            assert(qualifier(all, start + 2) == seq![vis[0], vis[1]]);
        }
        assert(qualifier(all, at - 1) == vis);
        assert(!captured(all, at - 1));
    }
    lemma_scanned_at(all, at);
}

/// A declaration is turned down exactly when none of its tokens can be the
/// name of a type.
pub proof fn lemma_scan_rejects_nameless(tokens: Seq<Tok>)
    ensures
        scanned(tokens) is None <==> forall|at: int|
            0 <= at < tokens.len() ==> !names_type(#[trigger] tokens[at]),
{
    if forall|at: int| 0 <= at < tokens.len() ==> !names_type(#[trigger] tokens[at]) {
        assert(!has_name(tokens));
    } else {
        let some = choose|at: int| 0 <= at < tokens.len() && names_type(#[trigger] tokens[at]);
        lemma_first_name(tokens, some);
    }
}

/// Where some token can be the name, a first such token exists.
pub proof fn lemma_first_name(tokens: Seq<Tok>, some: int)
    requires
        0 <= some < tokens.len(),
        names_type(tokens[some]),
    ensures
        has_name(tokens),
        name_index(tokens) <= some,
    decreases some,
{
    if exists|before: int| 0 <= before < some && names_type(#[trigger] tokens[before]) {
        let before = choose|before: int| 0 <= before < some && names_type(#[trigger] tokens[before]);
        lemma_first_name(tokens, before);
    } else {
        assert(name_at(tokens, some));
        lemma_name_at_unique(tokens, some, name_index(tokens));
    }
}

/// The visibility holds nothing but `pub` keywords and groups, and no more
/// tokens than were read.
pub proof fn lemma_qualifier_holds_visibility_only(tokens: Seq<Tok>, upto: int)
    requires
        0 <= upto <= tokens.len(),
    ensures
        qualifier(tokens, upto).len() <= upto,
        forall|at: int|
            0 <= at < qualifier(tokens, upto).len() ==> {
                let token = #[trigger] qualifier(tokens, upto)[at];
                is_pub(token) || token.kind == Kind::Group
            },
    decreases upto,
{
    if upto > 0 {
        lemma_qualifier_holds_visibility_only(tokens, upto - 1);
    }
}

/// How a visibility qualifier is written: nothing for a private type,
/// `pub ` for a public one, and `pub `, the group and a space for a scoped one.
pub proof fn lemma_rendered_qualifier(vis: Seq<Tok>)
    requires
        is_qualifier(vis),
    ensures
        vis.len() == 0 ==> rendered(vis) == Seq::<char>::empty(),
        vis.len() == 1 ==> rendered(vis) == "pub "@,
        vis.len() == 2 ==> rendered(vis) == "pub "@ + vis[1].text + " "@,
{
    reveal_strlit("pub");
    reveal_strlit(" ");
    reveal_strlit("pub ");
    reveal_with_fuel(rendered, 3);
    if vis.len() == 1 {
        assert(vis.drop_last().len() == 0);
        assert(rendered(vis) =~= "pub "@);
    } else if vis.len() == 2 {
        assert(vis.drop_last().drop_last().len() == 0);
        assert(vis.drop_last().last() == vis[0]);
        assert(rendered(vis) =~= "pub "@ + vis[1].text + " "@);
    }
}

/// The methods are as visible as the type.  For a type declared with a
/// qualifier, after any attributes, the block that is written names that
/// type, and both `encrypt` and `decrypt` stand in it with the same
/// qualifier before their `fn`: none for a private type, `pub` for a public
/// one, `pub` and the same group for a scoped one.
pub proof fn lemma_methods_as_visible_as_type(
    lead: Seq<Tok>,
    vis: Seq<Tok>,
    kind: Tok,
    name: Tok,
    rest: Seq<Tok>,
)
    requires
        forall|at: int| 0 <= at < lead.len() ==> (#[trigger] lead[at]).kind != Kind::Ident,
        is_qualifier(vis),
        is_kind(kind),
        names_type(name),
    ensures
        expansion(lead + vis + seq![kind, name] + rest) == "impl "@ + name.text + " { "@
            + rendered(vis) + ENCRYPT_METHOD@
            + rendered(vis) + DECRYPT_METHOD@
            + "}"@,
{
    lemma_scan_finds_declaration(lead, vis, kind, name, rest);
}

/// A declaration without a name gives the compile error and nothing else,
/// and a declaration with a name never gives it.
pub proof fn lemma_compile_error_iff_nameless(tokens: Seq<Tok>)
    ensures
        expansion(tokens) == NO_NAME_FOUND@ <==> forall|at: int|
            0 <= at < tokens.len() ==> !names_type(#[trigger] tokens[at]),
{
    lemma_scan_rejects_nameless(tokens);
    if let Some(decl) = scanned(tokens) {
        reveal_strlit("impl ");
        reveal_strlit("compile_error!(\"no type name found?!\")");
        assert(impl_text(decl)[0] == 'i');
        assert(NO_NAME_FOUND@[0] == 'c');
    }
}

} // verus!
