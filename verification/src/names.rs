//! Resolving the names the meta model uses to Rust paths of the generated
//! crate.

use vstd::prelude::*;
use crate::codegen::{notification_name, rpc_name};
use crate::spec::Spec;
use crate::text::{starts_with, str_eq};

verus! {

/// The names of the generated items, by the module they live in.
pub struct Names {
    root: Vec<String>,
    notification: Vec<String>,
    request: Vec<String>,
}

/// No name occurs twice.
pub open spec fn distinct_names(v: Seq<String>) -> bool {
    forall|i: int, j: int| 0 <= i < j < v.len() ==> v[i]@ != v[j]@
}

/// The texts of the names.
pub open spec fn name_set(v: Seq<String>) -> Set<Seq<char>> {
    Set::new(|s: Seq<char>| exists|i: int| 0 <= i < v.len() && v[i]@ == s)
}

/// Where a name not defined by the meta model itself is found, if anywhere:
/// a fixed table of names, then of name prefixes, tried in order.
pub open spec fn fallback_path(name: Seq<char>) -> Option<Seq<char>> {
    if name == "CodeActionRequest"@ {
        Some("crate::request::TextDocumentCodeAction"@)
    } else if name == "CodeLensRequest"@ {
        Some("crate::request::TextDocumentCodeLens"@)
    } else if name == "CodeLensResolveRequest"@ {
        Some("crate::request::CodeLensResolve"@)
    } else if name == "ColorPresentationRequest"@ {
        Some("crate::request::TextDocumentColorPresentation"@)
    } else if name == "CompletionRequest"@ {
        Some("crate::request::TextDocumentCompletion"@)
    } else if name == "CompletionResolveRequest"@ {
        Some("crate::request::CompletionItemResolve"@)
    } else if name == "DefinitionRequest"@ {
        Some("crate::request::TextDocumentDefinition"@)
    } else if name == "DocumentColorRequest"@ {
        Some("crate::request::TextDocumentDocumentColor"@)
    } else if name == "DocumentFormattingRequest"@ {
        Some("crate::request::TextDocumentFormatting"@)
    } else if name == "DocumentHighlightRequest"@ {
        Some("crate::request::TextDocumentDocumentHighlight"@)
    } else if name == "DocumentLinkRequest"@ {
        Some("crate::request::TextDocumentDocumentLink"@)
    } else if name == "DocumentOnTypeFormattingRequest"@ {
        Some("crate::request::TextDocumentOnTypeFormatting"@)
    } else if name == "DocumentRangeFormattingRequest"@ {
        Some("crate::request::TextDocumentRangeFormatting"@)
    } else if name == "DocumentRangesFormattingRequest"@ {
        Some("crate::request::TextDocumentRangesFormatting"@)
    } else if name == "DocumentSymbolRequest"@ {
        Some("crate::request::TextDocumentDocumentSymbol"@)
    } else if name == "ExecuteCommandRequest"@ {
        Some("crate::request::WorkspaceExecuteCommand"@)
    } else if name == "FoldingRangeList"@ {
        Some("crate::FoldingRange"@)
    } else if name == "FoldingRangeRequest"@ {
        Some("crate::request::TextDocumentFoldingRange"@)
    } else if name == "HoverRequest"@ {
        Some("crate::request::TextDocumentHover"@)
    } else if name == "InlayHintsParams"@ {
        Some("InlayHintParams"@)
    } else if name == "InlineCompletion"@ {
        Some("InlineCompletionItem"@)
    } else if name == "ReferencesRequest"@ {
        Some("crate::request::TextDocumentReferences"@)
    } else if name == "RenameRequest"@ {
        Some("crate::request::TextDocumentRename"@)
    } else if name == "ResponseError"@ {
        Some(""@)
    } else if name == "SignatureHelpRequest"@ {
        Some("crate::request::TextDocumentSignatureHelp"@)
    } else if name == "TextDocumentPosition"@ {
        Some("TextDocumentPositionParams"@)
    } else if name == "WorkspaceSymbolRequest"@ {
        Some("crate::request::WorkspaceSymbolRequest"@)
    } else if "CallHierarchyIncomingCall"@.is_prefix_of(name) {
        Some("crate::CallHierarchyIncomingCall"@)
    } else if "CallHierarchyItem"@.is_prefix_of(name) {
        Some("crate::CallHierarchyItem"@)
    } else if "CallHierarchyItemProvider"@.is_prefix_of(name) {
        Some("crate::CallHierarchyItemProvider"@)
    } else if "CallHierarchyOutgoingCall"@.is_prefix_of(name) {
        Some("crate::CallHierarchyOutgoingCall"@)
    } else if "CodeActionProvider"@.is_prefix_of(name) {
        Some("crate::request::TextDocumentCodeAction"@)
    } else if "ColorPresentation"@.is_prefix_of(name) {
        Some("crate::ColorPresentation"@)
    } else if "CompletionItem"@.is_prefix_of(name) {
        Some("crate::CompletionItem"@)
    } else if "DocumentHighlightKind"@.is_prefix_of(name) {
        Some("crate::DocumentHighlightKind"@)
    } else if "InlineCompletionItem"@.is_prefix_of(name) {
        Some("crate::InlineCompletionItem"@)
    } else if "TextDocument"@.is_prefix_of(name) {
        Some("crate::TextDocumentIdentifier"@)
    } else if "TypeHierarchyItem"@.is_prefix_of(name) {
        Some("crate::TypeHierarchyItem"@)
    } else if "Uri"@.is_prefix_of(name) {
        Some("String"@)
    } else {
        None
    }
}

/// The Rust path of `name`: in the request module, the notification module
/// or the crate root when it names an item there (tried in that order), else
/// what `fallback_path` gives.
pub open spec fn resolved_path(
    requests: Set<Seq<char>>,
    notifications: Set<Seq<char>>,
    roots: Set<Seq<char>>,
    name: Seq<char>,
) -> Seq<char> {
    if requests.contains(name) {
        "crate::request::"@ + name
    } else if notifications.contains(name) {
        "crate::notification::"@ + name
    } else if roots.contains(name) {
        "crate::"@ + name
    } else {
        fallback_path(name).unwrap()
    }
}

/// A request name resolves into the request module, a notification name
/// that is no request name into the notification module, and a type name
/// that is neither into the crate root, always as the name itself.
pub proof fn lemma_resolve_known(
    requests: Set<Seq<char>>,
    notifications: Set<Seq<char>>,
    roots: Set<Seq<char>>,
    name: Seq<char>,
)
    ensures
        requests.contains(name) ==> resolved_path(requests, notifications, roots, name)
            == "crate::request::"@ + name,
        !requests.contains(name) && notifications.contains(name) ==> resolved_path(
            requests,
            notifications,
            roots,
            name,
        ) == "crate::notification::"@ + name,
        !requests.contains(name) && !notifications.contains(name) && roots.contains(name)
            ==> resolved_path(requests, notifications, roots, name) == "crate::"@ + name,
{
}

/// A name that starts with `a` cannot start with `b` where the two differ.
proof fn lemma_prefix_conflict(a: Seq<char>, b: Seq<char>, name: Seq<char>, d: int)
    requires
        0 <= d < a.len(),
        d < b.len(),
        a[d] != b[d],
        a.is_prefix_of(name),
    ensures
        !b.is_prefix_of(name),
        name != b,
{
    assert(name.subrange(0, a.len() as int)[d] == a[d]);
    if b.is_prefix_of(name) {
        assert(name.subrange(0, b.len() as int)[d] == b[d]);
    }
    if name == b {
        assert(name[d] == b[d]);
    }
}

/// A name that starts with `a` is not the shorter text `b`.
proof fn lemma_prefix_longer(a: Seq<char>, b: Seq<char>, name: Seq<char>)
    requires
        a.len() > b.len(),
        a.is_prefix_of(name),
    ensures
        name != b,
{
}

/// Prefixes compose.
proof fn lemma_prefix_trans(a: Seq<char>, b: Seq<char>, name: Seq<char>)
    requires
        a.is_prefix_of(b),
        b.is_prefix_of(name),
    ensures
        a.is_prefix_of(name),
{
    assert forall|i: int| 0 <= i < a.len() implies name.subrange(0, a.len() as int)[i] == a[i] by {
        assert(b.subrange(0, a.len() as int)[i] == a[i]);
        assert(name.subrange(0, b.len() as int)[i] == b[i]);
    }
    assert(name.subrange(0, a.len() as int) =~= a);
}

/// A name that is none of the known items' names and is a key of the fixed
/// table resolves to that key's entry, whatever prefix rule it would also
/// match.
#[verifier::rlimit(80)]
pub proof fn lemma_resolve_table(
    requests: Set<Seq<char>>,
    notifications: Set<Seq<char>>,
    roots: Set<Seq<char>>,
    name: Seq<char>,
)
    requires
        !requests.contains(name),
        !notifications.contains(name),
        !roots.contains(name),
    ensures
        name == "CodeActionRequest"@ ==> resolved_path(requests, notifications, roots, name) == "crate::request::TextDocumentCodeAction"@,
        name == "CodeLensRequest"@ ==> resolved_path(requests, notifications, roots, name) == "crate::request::TextDocumentCodeLens"@,
        name == "CodeLensResolveRequest"@ ==> resolved_path(requests, notifications, roots, name) == "crate::request::CodeLensResolve"@,
        name == "ColorPresentationRequest"@ ==> resolved_path(requests, notifications, roots, name) == "crate::request::TextDocumentColorPresentation"@,
        name == "CompletionRequest"@ ==> resolved_path(requests, notifications, roots, name) == "crate::request::TextDocumentCompletion"@,
        name == "CompletionResolveRequest"@ ==> resolved_path(requests, notifications, roots, name) == "crate::request::CompletionItemResolve"@,
        name == "DefinitionRequest"@ ==> resolved_path(requests, notifications, roots, name) == "crate::request::TextDocumentDefinition"@,
        name == "DocumentColorRequest"@ ==> resolved_path(requests, notifications, roots, name) == "crate::request::TextDocumentDocumentColor"@,
        name == "DocumentFormattingRequest"@ ==> resolved_path(requests, notifications, roots, name) == "crate::request::TextDocumentFormatting"@,
        name == "DocumentHighlightRequest"@ ==> resolved_path(requests, notifications, roots, name) == "crate::request::TextDocumentDocumentHighlight"@,
        name == "DocumentLinkRequest"@ ==> resolved_path(requests, notifications, roots, name) == "crate::request::TextDocumentDocumentLink"@,
        name == "DocumentOnTypeFormattingRequest"@ ==> resolved_path(requests, notifications, roots, name) == "crate::request::TextDocumentOnTypeFormatting"@,
        name == "DocumentRangeFormattingRequest"@ ==> resolved_path(requests, notifications, roots, name) == "crate::request::TextDocumentRangeFormatting"@,
        name == "DocumentRangesFormattingRequest"@ ==> resolved_path(requests, notifications, roots, name) == "crate::request::TextDocumentRangesFormatting"@,
        name == "DocumentSymbolRequest"@ ==> resolved_path(requests, notifications, roots, name) == "crate::request::TextDocumentDocumentSymbol"@,
        name == "ExecuteCommandRequest"@ ==> resolved_path(requests, notifications, roots, name) == "crate::request::WorkspaceExecuteCommand"@,
        name == "FoldingRangeList"@ ==> resolved_path(requests, notifications, roots, name) == "crate::FoldingRange"@,
        name == "FoldingRangeRequest"@ ==> resolved_path(requests, notifications, roots, name) == "crate::request::TextDocumentFoldingRange"@,
        name == "HoverRequest"@ ==> resolved_path(requests, notifications, roots, name) == "crate::request::TextDocumentHover"@,
        name == "InlayHintsParams"@ ==> resolved_path(requests, notifications, roots, name) == "InlayHintParams"@,
        name == "InlineCompletion"@ ==> resolved_path(requests, notifications, roots, name) == "InlineCompletionItem"@,
        name == "ReferencesRequest"@ ==> resolved_path(requests, notifications, roots, name) == "crate::request::TextDocumentReferences"@,
        name == "RenameRequest"@ ==> resolved_path(requests, notifications, roots, name) == "crate::request::TextDocumentRename"@,
        name == "ResponseError"@ ==> resolved_path(requests, notifications, roots, name) == ""@,
        name == "SignatureHelpRequest"@ ==> resolved_path(requests, notifications, roots, name) == "crate::request::TextDocumentSignatureHelp"@,
        name == "TextDocumentPosition"@ ==> resolved_path(requests, notifications, roots, name) == "TextDocumentPositionParams"@,
        name == "WorkspaceSymbolRequest"@ ==> resolved_path(requests, notifications, roots, name) == "crate::request::WorkspaceSymbolRequest"@,
{
    assert("CodeLensRequest"@ != "CodeActionRequest"@) by { reveal_strlit("CodeLensRequest"); reveal_strlit("CodeActionRequest"); assert("CodeLensRequest"@.len() != "CodeActionRequest"@.len()); }
    assert("CodeLensResolveRequest"@ != "CodeActionRequest"@) by { reveal_strlit("CodeLensResolveRequest"); reveal_strlit("CodeActionRequest"); assert("CodeLensResolveRequest"@.len() != "CodeActionRequest"@.len()); }
    assert("CodeLensResolveRequest"@ != "CodeLensRequest"@) by { reveal_strlit("CodeLensResolveRequest"); reveal_strlit("CodeLensRequest"); assert("CodeLensResolveRequest"@.len() != "CodeLensRequest"@.len()); }
    assert("ColorPresentationRequest"@ != "CodeActionRequest"@) by { reveal_strlit("ColorPresentationRequest"); reveal_strlit("CodeActionRequest"); assert("ColorPresentationRequest"@.len() != "CodeActionRequest"@.len()); }
    assert("ColorPresentationRequest"@ != "CodeLensRequest"@) by { reveal_strlit("ColorPresentationRequest"); reveal_strlit("CodeLensRequest"); assert("ColorPresentationRequest"@.len() != "CodeLensRequest"@.len()); }
    assert("ColorPresentationRequest"@ != "CodeLensResolveRequest"@) by { reveal_strlit("ColorPresentationRequest"); reveal_strlit("CodeLensResolveRequest"); assert("ColorPresentationRequest"@.len() != "CodeLensResolveRequest"@.len()); }
    assert("CompletionRequest"@ != "CodeActionRequest"@) by { reveal_strlit("CompletionRequest"); reveal_strlit("CodeActionRequest"); assert("CompletionRequest"@[2] != "CodeActionRequest"@[2]); }
    assert("CompletionRequest"@ != "CodeLensRequest"@) by { reveal_strlit("CompletionRequest"); reveal_strlit("CodeLensRequest"); assert("CompletionRequest"@.len() != "CodeLensRequest"@.len()); }
    assert("CompletionRequest"@ != "CodeLensResolveRequest"@) by { reveal_strlit("CompletionRequest"); reveal_strlit("CodeLensResolveRequest"); assert("CompletionRequest"@.len() != "CodeLensResolveRequest"@.len()); }
    assert("CompletionRequest"@ != "ColorPresentationRequest"@) by { reveal_strlit("CompletionRequest"); reveal_strlit("ColorPresentationRequest"); assert("CompletionRequest"@.len() != "ColorPresentationRequest"@.len()); }
    assert("CompletionResolveRequest"@ != "CodeActionRequest"@) by { reveal_strlit("CompletionResolveRequest"); reveal_strlit("CodeActionRequest"); assert("CompletionResolveRequest"@.len() != "CodeActionRequest"@.len()); }
    assert("CompletionResolveRequest"@ != "CodeLensRequest"@) by { reveal_strlit("CompletionResolveRequest"); reveal_strlit("CodeLensRequest"); assert("CompletionResolveRequest"@.len() != "CodeLensRequest"@.len()); }
    assert("CompletionResolveRequest"@ != "CodeLensResolveRequest"@) by { reveal_strlit("CompletionResolveRequest"); reveal_strlit("CodeLensResolveRequest"); assert("CompletionResolveRequest"@.len() != "CodeLensResolveRequest"@.len()); }
    assert("CompletionResolveRequest"@ != "ColorPresentationRequest"@) by { reveal_strlit("CompletionResolveRequest"); reveal_strlit("ColorPresentationRequest"); assert("CompletionResolveRequest"@[2] != "ColorPresentationRequest"@[2]); }
    assert("CompletionResolveRequest"@ != "CompletionRequest"@) by { reveal_strlit("CompletionResolveRequest"); reveal_strlit("CompletionRequest"); assert("CompletionResolveRequest"@.len() != "CompletionRequest"@.len()); }
    assert("DefinitionRequest"@ != "CodeActionRequest"@) by { reveal_strlit("DefinitionRequest"); reveal_strlit("CodeActionRequest"); assert("DefinitionRequest"@[0] != "CodeActionRequest"@[0]); }
    assert("DefinitionRequest"@ != "CodeLensRequest"@) by { reveal_strlit("DefinitionRequest"); reveal_strlit("CodeLensRequest"); assert("DefinitionRequest"@.len() != "CodeLensRequest"@.len()); }
    assert("DefinitionRequest"@ != "CodeLensResolveRequest"@) by { reveal_strlit("DefinitionRequest"); reveal_strlit("CodeLensResolveRequest"); assert("DefinitionRequest"@.len() != "CodeLensResolveRequest"@.len()); }
    assert("DefinitionRequest"@ != "ColorPresentationRequest"@) by { reveal_strlit("DefinitionRequest"); reveal_strlit("ColorPresentationRequest"); assert("DefinitionRequest"@.len() != "ColorPresentationRequest"@.len()); }
    assert("DefinitionRequest"@ != "CompletionRequest"@) by { reveal_strlit("DefinitionRequest"); reveal_strlit("CompletionRequest"); assert("DefinitionRequest"@[0] != "CompletionRequest"@[0]); }
    assert("DefinitionRequest"@ != "CompletionResolveRequest"@) by { reveal_strlit("DefinitionRequest"); reveal_strlit("CompletionResolveRequest"); assert("DefinitionRequest"@.len() != "CompletionResolveRequest"@.len()); }
    assert("DocumentColorRequest"@ != "CodeActionRequest"@) by { reveal_strlit("DocumentColorRequest"); reveal_strlit("CodeActionRequest"); assert("DocumentColorRequest"@.len() != "CodeActionRequest"@.len()); }
    assert("DocumentColorRequest"@ != "CodeLensRequest"@) by { reveal_strlit("DocumentColorRequest"); reveal_strlit("CodeLensRequest"); assert("DocumentColorRequest"@.len() != "CodeLensRequest"@.len()); }
    assert("DocumentColorRequest"@ != "CodeLensResolveRequest"@) by { reveal_strlit("DocumentColorRequest"); reveal_strlit("CodeLensResolveRequest"); assert("DocumentColorRequest"@.len() != "CodeLensResolveRequest"@.len()); }
    assert("DocumentColorRequest"@ != "ColorPresentationRequest"@) by { reveal_strlit("DocumentColorRequest"); reveal_strlit("ColorPresentationRequest"); assert("DocumentColorRequest"@.len() != "ColorPresentationRequest"@.len()); }
    assert("DocumentColorRequest"@ != "CompletionRequest"@) by { reveal_strlit("DocumentColorRequest"); reveal_strlit("CompletionRequest"); assert("DocumentColorRequest"@.len() != "CompletionRequest"@.len()); }
    assert("DocumentColorRequest"@ != "CompletionResolveRequest"@) by { reveal_strlit("DocumentColorRequest"); reveal_strlit("CompletionResolveRequest"); assert("DocumentColorRequest"@.len() != "CompletionResolveRequest"@.len()); }
    assert("DocumentColorRequest"@ != "DefinitionRequest"@) by { reveal_strlit("DocumentColorRequest"); reveal_strlit("DefinitionRequest"); assert("DocumentColorRequest"@.len() != "DefinitionRequest"@.len()); }
    assert("DocumentFormattingRequest"@ != "CodeActionRequest"@) by { reveal_strlit("DocumentFormattingRequest"); reveal_strlit("CodeActionRequest"); assert("DocumentFormattingRequest"@.len() != "CodeActionRequest"@.len()); }
    assert("DocumentFormattingRequest"@ != "CodeLensRequest"@) by { reveal_strlit("DocumentFormattingRequest"); reveal_strlit("CodeLensRequest"); assert("DocumentFormattingRequest"@.len() != "CodeLensRequest"@.len()); }
    assert("DocumentFormattingRequest"@ != "CodeLensResolveRequest"@) by { reveal_strlit("DocumentFormattingRequest"); reveal_strlit("CodeLensResolveRequest"); assert("DocumentFormattingRequest"@.len() != "CodeLensResolveRequest"@.len()); }
    assert("DocumentFormattingRequest"@ != "ColorPresentationRequest"@) by { reveal_strlit("DocumentFormattingRequest"); reveal_strlit("ColorPresentationRequest"); assert("DocumentFormattingRequest"@.len() != "ColorPresentationRequest"@.len()); }
    assert("DocumentFormattingRequest"@ != "CompletionRequest"@) by { reveal_strlit("DocumentFormattingRequest"); reveal_strlit("CompletionRequest"); assert("DocumentFormattingRequest"@.len() != "CompletionRequest"@.len()); }
    assert("DocumentFormattingRequest"@ != "CompletionResolveRequest"@) by { reveal_strlit("DocumentFormattingRequest"); reveal_strlit("CompletionResolveRequest"); assert("DocumentFormattingRequest"@.len() != "CompletionResolveRequest"@.len()); }
    assert("DocumentFormattingRequest"@ != "DefinitionRequest"@) by { reveal_strlit("DocumentFormattingRequest"); reveal_strlit("DefinitionRequest"); assert("DocumentFormattingRequest"@.len() != "DefinitionRequest"@.len()); }
    assert("DocumentFormattingRequest"@ != "DocumentColorRequest"@) by { reveal_strlit("DocumentFormattingRequest"); reveal_strlit("DocumentColorRequest"); assert("DocumentFormattingRequest"@.len() != "DocumentColorRequest"@.len()); }
    assert("DocumentHighlightRequest"@ != "CodeActionRequest"@) by { reveal_strlit("DocumentHighlightRequest"); reveal_strlit("CodeActionRequest"); assert("DocumentHighlightRequest"@.len() != "CodeActionRequest"@.len()); }
    assert("DocumentHighlightRequest"@ != "CodeLensRequest"@) by { reveal_strlit("DocumentHighlightRequest"); reveal_strlit("CodeLensRequest"); assert("DocumentHighlightRequest"@.len() != "CodeLensRequest"@.len()); }
    assert("DocumentHighlightRequest"@ != "CodeLensResolveRequest"@) by { reveal_strlit("DocumentHighlightRequest"); reveal_strlit("CodeLensResolveRequest"); assert("DocumentHighlightRequest"@.len() != "CodeLensResolveRequest"@.len()); }
    assert("DocumentHighlightRequest"@ != "ColorPresentationRequest"@) by { reveal_strlit("DocumentHighlightRequest"); reveal_strlit("ColorPresentationRequest"); assert("DocumentHighlightRequest"@[0] != "ColorPresentationRequest"@[0]); }
    assert("DocumentHighlightRequest"@ != "CompletionRequest"@) by { reveal_strlit("DocumentHighlightRequest"); reveal_strlit("CompletionRequest"); assert("DocumentHighlightRequest"@.len() != "CompletionRequest"@.len()); }
    assert("DocumentHighlightRequest"@ != "CompletionResolveRequest"@) by { reveal_strlit("DocumentHighlightRequest"); reveal_strlit("CompletionResolveRequest"); assert("DocumentHighlightRequest"@[0] != "CompletionResolveRequest"@[0]); }
    assert("DocumentHighlightRequest"@ != "DefinitionRequest"@) by { reveal_strlit("DocumentHighlightRequest"); reveal_strlit("DefinitionRequest"); assert("DocumentHighlightRequest"@.len() != "DefinitionRequest"@.len()); }
    assert("DocumentHighlightRequest"@ != "DocumentColorRequest"@) by { reveal_strlit("DocumentHighlightRequest"); reveal_strlit("DocumentColorRequest"); assert("DocumentHighlightRequest"@.len() != "DocumentColorRequest"@.len()); }
    assert("DocumentHighlightRequest"@ != "DocumentFormattingRequest"@) by { reveal_strlit("DocumentHighlightRequest"); reveal_strlit("DocumentFormattingRequest"); assert("DocumentHighlightRequest"@.len() != "DocumentFormattingRequest"@.len()); }
    assert("DocumentLinkRequest"@ != "CodeActionRequest"@) by { reveal_strlit("DocumentLinkRequest"); reveal_strlit("CodeActionRequest"); assert("DocumentLinkRequest"@.len() != "CodeActionRequest"@.len()); }
    assert("DocumentLinkRequest"@ != "CodeLensRequest"@) by { reveal_strlit("DocumentLinkRequest"); reveal_strlit("CodeLensRequest"); assert("DocumentLinkRequest"@.len() != "CodeLensRequest"@.len()); }
    assert("DocumentLinkRequest"@ != "CodeLensResolveRequest"@) by { reveal_strlit("DocumentLinkRequest"); reveal_strlit("CodeLensResolveRequest"); assert("DocumentLinkRequest"@.len() != "CodeLensResolveRequest"@.len()); }
    assert("DocumentLinkRequest"@ != "ColorPresentationRequest"@) by { reveal_strlit("DocumentLinkRequest"); reveal_strlit("ColorPresentationRequest"); assert("DocumentLinkRequest"@.len() != "ColorPresentationRequest"@.len()); }
    assert("DocumentLinkRequest"@ != "CompletionRequest"@) by { reveal_strlit("DocumentLinkRequest"); reveal_strlit("CompletionRequest"); assert("DocumentLinkRequest"@.len() != "CompletionRequest"@.len()); }
    assert("DocumentLinkRequest"@ != "CompletionResolveRequest"@) by { reveal_strlit("DocumentLinkRequest"); reveal_strlit("CompletionResolveRequest"); assert("DocumentLinkRequest"@.len() != "CompletionResolveRequest"@.len()); }
    assert("DocumentLinkRequest"@ != "DefinitionRequest"@) by { reveal_strlit("DocumentLinkRequest"); reveal_strlit("DefinitionRequest"); assert("DocumentLinkRequest"@.len() != "DefinitionRequest"@.len()); }
    assert("DocumentLinkRequest"@ != "DocumentColorRequest"@) by { reveal_strlit("DocumentLinkRequest"); reveal_strlit("DocumentColorRequest"); assert("DocumentLinkRequest"@.len() != "DocumentColorRequest"@.len()); }
    assert("DocumentLinkRequest"@ != "DocumentFormattingRequest"@) by { reveal_strlit("DocumentLinkRequest"); reveal_strlit("DocumentFormattingRequest"); assert("DocumentLinkRequest"@.len() != "DocumentFormattingRequest"@.len()); }
    assert("DocumentLinkRequest"@ != "DocumentHighlightRequest"@) by { reveal_strlit("DocumentLinkRequest"); reveal_strlit("DocumentHighlightRequest"); assert("DocumentLinkRequest"@.len() != "DocumentHighlightRequest"@.len()); }
    assert("DocumentOnTypeFormattingRequest"@ != "CodeActionRequest"@) by { reveal_strlit("DocumentOnTypeFormattingRequest"); reveal_strlit("CodeActionRequest"); assert("DocumentOnTypeFormattingRequest"@.len() != "CodeActionRequest"@.len()); }
    assert("DocumentOnTypeFormattingRequest"@ != "CodeLensRequest"@) by { reveal_strlit("DocumentOnTypeFormattingRequest"); reveal_strlit("CodeLensRequest"); assert("DocumentOnTypeFormattingRequest"@.len() != "CodeLensRequest"@.len()); }
    assert("DocumentOnTypeFormattingRequest"@ != "CodeLensResolveRequest"@) by { reveal_strlit("DocumentOnTypeFormattingRequest"); reveal_strlit("CodeLensResolveRequest"); assert("DocumentOnTypeFormattingRequest"@.len() != "CodeLensResolveRequest"@.len()); }
    assert("DocumentOnTypeFormattingRequest"@ != "ColorPresentationRequest"@) by { reveal_strlit("DocumentOnTypeFormattingRequest"); reveal_strlit("ColorPresentationRequest"); assert("DocumentOnTypeFormattingRequest"@.len() != "ColorPresentationRequest"@.len()); }
    assert("DocumentOnTypeFormattingRequest"@ != "CompletionRequest"@) by { reveal_strlit("DocumentOnTypeFormattingRequest"); reveal_strlit("CompletionRequest"); assert("DocumentOnTypeFormattingRequest"@.len() != "CompletionRequest"@.len()); }
    assert("DocumentOnTypeFormattingRequest"@ != "CompletionResolveRequest"@) by { reveal_strlit("DocumentOnTypeFormattingRequest"); reveal_strlit("CompletionResolveRequest"); assert("DocumentOnTypeFormattingRequest"@.len() != "CompletionResolveRequest"@.len()); }
    assert("DocumentOnTypeFormattingRequest"@ != "DefinitionRequest"@) by { reveal_strlit("DocumentOnTypeFormattingRequest"); reveal_strlit("DefinitionRequest"); assert("DocumentOnTypeFormattingRequest"@.len() != "DefinitionRequest"@.len()); }
    assert("DocumentOnTypeFormattingRequest"@ != "DocumentColorRequest"@) by { reveal_strlit("DocumentOnTypeFormattingRequest"); reveal_strlit("DocumentColorRequest"); assert("DocumentOnTypeFormattingRequest"@.len() != "DocumentColorRequest"@.len()); }
    assert("DocumentOnTypeFormattingRequest"@ != "DocumentFormattingRequest"@) by { reveal_strlit("DocumentOnTypeFormattingRequest"); reveal_strlit("DocumentFormattingRequest"); assert("DocumentOnTypeFormattingRequest"@.len() != "DocumentFormattingRequest"@.len()); }
    assert("DocumentOnTypeFormattingRequest"@ != "DocumentHighlightRequest"@) by { reveal_strlit("DocumentOnTypeFormattingRequest"); reveal_strlit("DocumentHighlightRequest"); assert("DocumentOnTypeFormattingRequest"@.len() != "DocumentHighlightRequest"@.len()); }
    assert("DocumentOnTypeFormattingRequest"@ != "DocumentLinkRequest"@) by { reveal_strlit("DocumentOnTypeFormattingRequest"); reveal_strlit("DocumentLinkRequest"); assert("DocumentOnTypeFormattingRequest"@.len() != "DocumentLinkRequest"@.len()); }
    assert("DocumentRangeFormattingRequest"@ != "CodeActionRequest"@) by { reveal_strlit("DocumentRangeFormattingRequest"); reveal_strlit("CodeActionRequest"); assert("DocumentRangeFormattingRequest"@.len() != "CodeActionRequest"@.len()); }
    assert("DocumentRangeFormattingRequest"@ != "CodeLensRequest"@) by { reveal_strlit("DocumentRangeFormattingRequest"); reveal_strlit("CodeLensRequest"); assert("DocumentRangeFormattingRequest"@.len() != "CodeLensRequest"@.len()); }
    assert("DocumentRangeFormattingRequest"@ != "CodeLensResolveRequest"@) by { reveal_strlit("DocumentRangeFormattingRequest"); reveal_strlit("CodeLensResolveRequest"); assert("DocumentRangeFormattingRequest"@.len() != "CodeLensResolveRequest"@.len()); }
    assert("DocumentRangeFormattingRequest"@ != "ColorPresentationRequest"@) by { reveal_strlit("DocumentRangeFormattingRequest"); reveal_strlit("ColorPresentationRequest"); assert("DocumentRangeFormattingRequest"@.len() != "ColorPresentationRequest"@.len()); }
    assert("DocumentRangeFormattingRequest"@ != "CompletionRequest"@) by { reveal_strlit("DocumentRangeFormattingRequest"); reveal_strlit("CompletionRequest"); assert("DocumentRangeFormattingRequest"@.len() != "CompletionRequest"@.len()); }
    assert("DocumentRangeFormattingRequest"@ != "CompletionResolveRequest"@) by { reveal_strlit("DocumentRangeFormattingRequest"); reveal_strlit("CompletionResolveRequest"); assert("DocumentRangeFormattingRequest"@.len() != "CompletionResolveRequest"@.len()); }
    assert("DocumentRangeFormattingRequest"@ != "DefinitionRequest"@) by { reveal_strlit("DocumentRangeFormattingRequest"); reveal_strlit("DefinitionRequest"); assert("DocumentRangeFormattingRequest"@.len() != "DefinitionRequest"@.len()); }
    assert("DocumentRangeFormattingRequest"@ != "DocumentColorRequest"@) by { reveal_strlit("DocumentRangeFormattingRequest"); reveal_strlit("DocumentColorRequest"); assert("DocumentRangeFormattingRequest"@.len() != "DocumentColorRequest"@.len()); }
    assert("DocumentRangeFormattingRequest"@ != "DocumentFormattingRequest"@) by { reveal_strlit("DocumentRangeFormattingRequest"); reveal_strlit("DocumentFormattingRequest"); assert("DocumentRangeFormattingRequest"@.len() != "DocumentFormattingRequest"@.len()); }
    assert("DocumentRangeFormattingRequest"@ != "DocumentHighlightRequest"@) by { reveal_strlit("DocumentRangeFormattingRequest"); reveal_strlit("DocumentHighlightRequest"); assert("DocumentRangeFormattingRequest"@.len() != "DocumentHighlightRequest"@.len()); }
    assert("DocumentRangeFormattingRequest"@ != "DocumentLinkRequest"@) by { reveal_strlit("DocumentRangeFormattingRequest"); reveal_strlit("DocumentLinkRequest"); assert("DocumentRangeFormattingRequest"@.len() != "DocumentLinkRequest"@.len()); }
    assert("DocumentRangeFormattingRequest"@ != "DocumentOnTypeFormattingRequest"@) by { reveal_strlit("DocumentRangeFormattingRequest"); reveal_strlit("DocumentOnTypeFormattingRequest"); assert("DocumentRangeFormattingRequest"@.len() != "DocumentOnTypeFormattingRequest"@.len()); }
    assert("DocumentRangesFormattingRequest"@ != "CodeActionRequest"@) by { reveal_strlit("DocumentRangesFormattingRequest"); reveal_strlit("CodeActionRequest"); assert("DocumentRangesFormattingRequest"@.len() != "CodeActionRequest"@.len()); }
    assert("DocumentRangesFormattingRequest"@ != "CodeLensRequest"@) by { reveal_strlit("DocumentRangesFormattingRequest"); reveal_strlit("CodeLensRequest"); assert("DocumentRangesFormattingRequest"@.len() != "CodeLensRequest"@.len()); }
    assert("DocumentRangesFormattingRequest"@ != "CodeLensResolveRequest"@) by { reveal_strlit("DocumentRangesFormattingRequest"); reveal_strlit("CodeLensResolveRequest"); assert("DocumentRangesFormattingRequest"@.len() != "CodeLensResolveRequest"@.len()); }
    assert("DocumentRangesFormattingRequest"@ != "ColorPresentationRequest"@) by { reveal_strlit("DocumentRangesFormattingRequest"); reveal_strlit("ColorPresentationRequest"); assert("DocumentRangesFormattingRequest"@.len() != "ColorPresentationRequest"@.len()); }
    assert("DocumentRangesFormattingRequest"@ != "CompletionRequest"@) by { reveal_strlit("DocumentRangesFormattingRequest"); reveal_strlit("CompletionRequest"); assert("DocumentRangesFormattingRequest"@.len() != "CompletionRequest"@.len()); }
    assert("DocumentRangesFormattingRequest"@ != "CompletionResolveRequest"@) by { reveal_strlit("DocumentRangesFormattingRequest"); reveal_strlit("CompletionResolveRequest"); assert("DocumentRangesFormattingRequest"@.len() != "CompletionResolveRequest"@.len()); }
    assert("DocumentRangesFormattingRequest"@ != "DefinitionRequest"@) by { reveal_strlit("DocumentRangesFormattingRequest"); reveal_strlit("DefinitionRequest"); assert("DocumentRangesFormattingRequest"@.len() != "DefinitionRequest"@.len()); }
    assert("DocumentRangesFormattingRequest"@ != "DocumentColorRequest"@) by { reveal_strlit("DocumentRangesFormattingRequest"); reveal_strlit("DocumentColorRequest"); assert("DocumentRangesFormattingRequest"@.len() != "DocumentColorRequest"@.len()); }
    assert("DocumentRangesFormattingRequest"@ != "DocumentFormattingRequest"@) by { reveal_strlit("DocumentRangesFormattingRequest"); reveal_strlit("DocumentFormattingRequest"); assert("DocumentRangesFormattingRequest"@.len() != "DocumentFormattingRequest"@.len()); }
    assert("DocumentRangesFormattingRequest"@ != "DocumentHighlightRequest"@) by { reveal_strlit("DocumentRangesFormattingRequest"); reveal_strlit("DocumentHighlightRequest"); assert("DocumentRangesFormattingRequest"@.len() != "DocumentHighlightRequest"@.len()); }
    assert("DocumentRangesFormattingRequest"@ != "DocumentLinkRequest"@) by { reveal_strlit("DocumentRangesFormattingRequest"); reveal_strlit("DocumentLinkRequest"); assert("DocumentRangesFormattingRequest"@.len() != "DocumentLinkRequest"@.len()); }
    assert("DocumentRangesFormattingRequest"@ != "DocumentOnTypeFormattingRequest"@) by { reveal_strlit("DocumentRangesFormattingRequest"); reveal_strlit("DocumentOnTypeFormattingRequest"); assert("DocumentRangesFormattingRequest"@[8] != "DocumentOnTypeFormattingRequest"@[8]); }
    assert("DocumentRangesFormattingRequest"@ != "DocumentRangeFormattingRequest"@) by { reveal_strlit("DocumentRangesFormattingRequest"); reveal_strlit("DocumentRangeFormattingRequest"); assert("DocumentRangesFormattingRequest"@.len() != "DocumentRangeFormattingRequest"@.len()); }
    assert("DocumentSymbolRequest"@ != "CodeActionRequest"@) by { reveal_strlit("DocumentSymbolRequest"); reveal_strlit("CodeActionRequest"); assert("DocumentSymbolRequest"@.len() != "CodeActionRequest"@.len()); }
    assert("DocumentSymbolRequest"@ != "CodeLensRequest"@) by { reveal_strlit("DocumentSymbolRequest"); reveal_strlit("CodeLensRequest"); assert("DocumentSymbolRequest"@.len() != "CodeLensRequest"@.len()); }
    assert("DocumentSymbolRequest"@ != "CodeLensResolveRequest"@) by { reveal_strlit("DocumentSymbolRequest"); reveal_strlit("CodeLensResolveRequest"); assert("DocumentSymbolRequest"@.len() != "CodeLensResolveRequest"@.len()); }
    assert("DocumentSymbolRequest"@ != "ColorPresentationRequest"@) by { reveal_strlit("DocumentSymbolRequest"); reveal_strlit("ColorPresentationRequest"); assert("DocumentSymbolRequest"@.len() != "ColorPresentationRequest"@.len()); }
    assert("DocumentSymbolRequest"@ != "CompletionRequest"@) by { reveal_strlit("DocumentSymbolRequest"); reveal_strlit("CompletionRequest"); assert("DocumentSymbolRequest"@.len() != "CompletionRequest"@.len()); }
    assert("DocumentSymbolRequest"@ != "CompletionResolveRequest"@) by { reveal_strlit("DocumentSymbolRequest"); reveal_strlit("CompletionResolveRequest"); assert("DocumentSymbolRequest"@.len() != "CompletionResolveRequest"@.len()); }
    assert("DocumentSymbolRequest"@ != "DefinitionRequest"@) by { reveal_strlit("DocumentSymbolRequest"); reveal_strlit("DefinitionRequest"); assert("DocumentSymbolRequest"@.len() != "DefinitionRequest"@.len()); }
    assert("DocumentSymbolRequest"@ != "DocumentColorRequest"@) by { reveal_strlit("DocumentSymbolRequest"); reveal_strlit("DocumentColorRequest"); assert("DocumentSymbolRequest"@.len() != "DocumentColorRequest"@.len()); }
    assert("DocumentSymbolRequest"@ != "DocumentFormattingRequest"@) by { reveal_strlit("DocumentSymbolRequest"); reveal_strlit("DocumentFormattingRequest"); assert("DocumentSymbolRequest"@.len() != "DocumentFormattingRequest"@.len()); }
    assert("DocumentSymbolRequest"@ != "DocumentHighlightRequest"@) by { reveal_strlit("DocumentSymbolRequest"); reveal_strlit("DocumentHighlightRequest"); assert("DocumentSymbolRequest"@.len() != "DocumentHighlightRequest"@.len()); }
    assert("DocumentSymbolRequest"@ != "DocumentLinkRequest"@) by { reveal_strlit("DocumentSymbolRequest"); reveal_strlit("DocumentLinkRequest"); assert("DocumentSymbolRequest"@.len() != "DocumentLinkRequest"@.len()); }
    assert("DocumentSymbolRequest"@ != "DocumentOnTypeFormattingRequest"@) by { reveal_strlit("DocumentSymbolRequest"); reveal_strlit("DocumentOnTypeFormattingRequest"); assert("DocumentSymbolRequest"@.len() != "DocumentOnTypeFormattingRequest"@.len()); }
    assert("DocumentSymbolRequest"@ != "DocumentRangeFormattingRequest"@) by { reveal_strlit("DocumentSymbolRequest"); reveal_strlit("DocumentRangeFormattingRequest"); assert("DocumentSymbolRequest"@.len() != "DocumentRangeFormattingRequest"@.len()); }
    assert("DocumentSymbolRequest"@ != "DocumentRangesFormattingRequest"@) by { reveal_strlit("DocumentSymbolRequest"); reveal_strlit("DocumentRangesFormattingRequest"); assert("DocumentSymbolRequest"@.len() != "DocumentRangesFormattingRequest"@.len()); }
    assert("ExecuteCommandRequest"@ != "CodeActionRequest"@) by { reveal_strlit("ExecuteCommandRequest"); reveal_strlit("CodeActionRequest"); assert("ExecuteCommandRequest"@.len() != "CodeActionRequest"@.len()); }
    assert("ExecuteCommandRequest"@ != "CodeLensRequest"@) by { reveal_strlit("ExecuteCommandRequest"); reveal_strlit("CodeLensRequest"); assert("ExecuteCommandRequest"@.len() != "CodeLensRequest"@.len()); }
    assert("ExecuteCommandRequest"@ != "CodeLensResolveRequest"@) by { reveal_strlit("ExecuteCommandRequest"); reveal_strlit("CodeLensResolveRequest"); assert("ExecuteCommandRequest"@.len() != "CodeLensResolveRequest"@.len()); }
    assert("ExecuteCommandRequest"@ != "ColorPresentationRequest"@) by { reveal_strlit("ExecuteCommandRequest"); reveal_strlit("ColorPresentationRequest"); assert("ExecuteCommandRequest"@.len() != "ColorPresentationRequest"@.len()); }
    assert("ExecuteCommandRequest"@ != "CompletionRequest"@) by { reveal_strlit("ExecuteCommandRequest"); reveal_strlit("CompletionRequest"); assert("ExecuteCommandRequest"@.len() != "CompletionRequest"@.len()); }
    assert("ExecuteCommandRequest"@ != "CompletionResolveRequest"@) by { reveal_strlit("ExecuteCommandRequest"); reveal_strlit("CompletionResolveRequest"); assert("ExecuteCommandRequest"@.len() != "CompletionResolveRequest"@.len()); }
    assert("ExecuteCommandRequest"@ != "DefinitionRequest"@) by { reveal_strlit("ExecuteCommandRequest"); reveal_strlit("DefinitionRequest"); assert("ExecuteCommandRequest"@.len() != "DefinitionRequest"@.len()); }
    assert("ExecuteCommandRequest"@ != "DocumentColorRequest"@) by { reveal_strlit("ExecuteCommandRequest"); reveal_strlit("DocumentColorRequest"); assert("ExecuteCommandRequest"@.len() != "DocumentColorRequest"@.len()); }
    assert("ExecuteCommandRequest"@ != "DocumentFormattingRequest"@) by { reveal_strlit("ExecuteCommandRequest"); reveal_strlit("DocumentFormattingRequest"); assert("ExecuteCommandRequest"@.len() != "DocumentFormattingRequest"@.len()); }
    assert("ExecuteCommandRequest"@ != "DocumentHighlightRequest"@) by { reveal_strlit("ExecuteCommandRequest"); reveal_strlit("DocumentHighlightRequest"); assert("ExecuteCommandRequest"@.len() != "DocumentHighlightRequest"@.len()); }
    assert("ExecuteCommandRequest"@ != "DocumentLinkRequest"@) by { reveal_strlit("ExecuteCommandRequest"); reveal_strlit("DocumentLinkRequest"); assert("ExecuteCommandRequest"@.len() != "DocumentLinkRequest"@.len()); }
    assert("ExecuteCommandRequest"@ != "DocumentOnTypeFormattingRequest"@) by { reveal_strlit("ExecuteCommandRequest"); reveal_strlit("DocumentOnTypeFormattingRequest"); assert("ExecuteCommandRequest"@.len() != "DocumentOnTypeFormattingRequest"@.len()); }
    assert("ExecuteCommandRequest"@ != "DocumentRangeFormattingRequest"@) by { reveal_strlit("ExecuteCommandRequest"); reveal_strlit("DocumentRangeFormattingRequest"); assert("ExecuteCommandRequest"@.len() != "DocumentRangeFormattingRequest"@.len()); }
    assert("ExecuteCommandRequest"@ != "DocumentRangesFormattingRequest"@) by { reveal_strlit("ExecuteCommandRequest"); reveal_strlit("DocumentRangesFormattingRequest"); assert("ExecuteCommandRequest"@.len() != "DocumentRangesFormattingRequest"@.len()); }
    assert("ExecuteCommandRequest"@ != "DocumentSymbolRequest"@) by { reveal_strlit("ExecuteCommandRequest"); reveal_strlit("DocumentSymbolRequest"); assert("ExecuteCommandRequest"@[0] != "DocumentSymbolRequest"@[0]); }
    assert("FoldingRangeList"@ != "CodeActionRequest"@) by { reveal_strlit("FoldingRangeList"); reveal_strlit("CodeActionRequest"); assert("FoldingRangeList"@.len() != "CodeActionRequest"@.len()); }
    assert("FoldingRangeList"@ != "CodeLensRequest"@) by { reveal_strlit("FoldingRangeList"); reveal_strlit("CodeLensRequest"); assert("FoldingRangeList"@.len() != "CodeLensRequest"@.len()); }
    assert("FoldingRangeList"@ != "CodeLensResolveRequest"@) by { reveal_strlit("FoldingRangeList"); reveal_strlit("CodeLensResolveRequest"); assert("FoldingRangeList"@.len() != "CodeLensResolveRequest"@.len()); }
    assert("FoldingRangeList"@ != "ColorPresentationRequest"@) by { reveal_strlit("FoldingRangeList"); reveal_strlit("ColorPresentationRequest"); assert("FoldingRangeList"@.len() != "ColorPresentationRequest"@.len()); }
    assert("FoldingRangeList"@ != "CompletionRequest"@) by { reveal_strlit("FoldingRangeList"); reveal_strlit("CompletionRequest"); assert("FoldingRangeList"@.len() != "CompletionRequest"@.len()); }
    assert("FoldingRangeList"@ != "CompletionResolveRequest"@) by { reveal_strlit("FoldingRangeList"); reveal_strlit("CompletionResolveRequest"); assert("FoldingRangeList"@.len() != "CompletionResolveRequest"@.len()); }
    assert("FoldingRangeList"@ != "DefinitionRequest"@) by { reveal_strlit("FoldingRangeList"); reveal_strlit("DefinitionRequest"); assert("FoldingRangeList"@.len() != "DefinitionRequest"@.len()); }
    assert("FoldingRangeList"@ != "DocumentColorRequest"@) by { reveal_strlit("FoldingRangeList"); reveal_strlit("DocumentColorRequest"); assert("FoldingRangeList"@.len() != "DocumentColorRequest"@.len()); }
    assert("FoldingRangeList"@ != "DocumentFormattingRequest"@) by { reveal_strlit("FoldingRangeList"); reveal_strlit("DocumentFormattingRequest"); assert("FoldingRangeList"@.len() != "DocumentFormattingRequest"@.len()); }
    assert("FoldingRangeList"@ != "DocumentHighlightRequest"@) by { reveal_strlit("FoldingRangeList"); reveal_strlit("DocumentHighlightRequest"); assert("FoldingRangeList"@.len() != "DocumentHighlightRequest"@.len()); }
    assert("FoldingRangeList"@ != "DocumentLinkRequest"@) by { reveal_strlit("FoldingRangeList"); reveal_strlit("DocumentLinkRequest"); assert("FoldingRangeList"@.len() != "DocumentLinkRequest"@.len()); }
    assert("FoldingRangeList"@ != "DocumentOnTypeFormattingRequest"@) by { reveal_strlit("FoldingRangeList"); reveal_strlit("DocumentOnTypeFormattingRequest"); assert("FoldingRangeList"@.len() != "DocumentOnTypeFormattingRequest"@.len()); }
    assert("FoldingRangeList"@ != "DocumentRangeFormattingRequest"@) by { reveal_strlit("FoldingRangeList"); reveal_strlit("DocumentRangeFormattingRequest"); assert("FoldingRangeList"@.len() != "DocumentRangeFormattingRequest"@.len()); }
    assert("FoldingRangeList"@ != "DocumentRangesFormattingRequest"@) by { reveal_strlit("FoldingRangeList"); reveal_strlit("DocumentRangesFormattingRequest"); assert("FoldingRangeList"@.len() != "DocumentRangesFormattingRequest"@.len()); }
    assert("FoldingRangeList"@ != "DocumentSymbolRequest"@) by { reveal_strlit("FoldingRangeList"); reveal_strlit("DocumentSymbolRequest"); assert("FoldingRangeList"@.len() != "DocumentSymbolRequest"@.len()); }
    assert("FoldingRangeList"@ != "ExecuteCommandRequest"@) by { reveal_strlit("FoldingRangeList"); reveal_strlit("ExecuteCommandRequest"); assert("FoldingRangeList"@.len() != "ExecuteCommandRequest"@.len()); }
    assert("FoldingRangeRequest"@ != "CodeActionRequest"@) by { reveal_strlit("FoldingRangeRequest"); reveal_strlit("CodeActionRequest"); assert("FoldingRangeRequest"@.len() != "CodeActionRequest"@.len()); }
    assert("FoldingRangeRequest"@ != "CodeLensRequest"@) by { reveal_strlit("FoldingRangeRequest"); reveal_strlit("CodeLensRequest"); assert("FoldingRangeRequest"@.len() != "CodeLensRequest"@.len()); }
    assert("FoldingRangeRequest"@ != "CodeLensResolveRequest"@) by { reveal_strlit("FoldingRangeRequest"); reveal_strlit("CodeLensResolveRequest"); assert("FoldingRangeRequest"@.len() != "CodeLensResolveRequest"@.len()); }
    assert("FoldingRangeRequest"@ != "ColorPresentationRequest"@) by { reveal_strlit("FoldingRangeRequest"); reveal_strlit("ColorPresentationRequest"); assert("FoldingRangeRequest"@.len() != "ColorPresentationRequest"@.len()); }
    assert("FoldingRangeRequest"@ != "CompletionRequest"@) by { reveal_strlit("FoldingRangeRequest"); reveal_strlit("CompletionRequest"); assert("FoldingRangeRequest"@.len() != "CompletionRequest"@.len()); }
    assert("FoldingRangeRequest"@ != "CompletionResolveRequest"@) by { reveal_strlit("FoldingRangeRequest"); reveal_strlit("CompletionResolveRequest"); assert("FoldingRangeRequest"@.len() != "CompletionResolveRequest"@.len()); }
    assert("FoldingRangeRequest"@ != "DefinitionRequest"@) by { reveal_strlit("FoldingRangeRequest"); reveal_strlit("DefinitionRequest"); assert("FoldingRangeRequest"@.len() != "DefinitionRequest"@.len()); }
    assert("FoldingRangeRequest"@ != "DocumentColorRequest"@) by { reveal_strlit("FoldingRangeRequest"); reveal_strlit("DocumentColorRequest"); assert("FoldingRangeRequest"@.len() != "DocumentColorRequest"@.len()); }
    assert("FoldingRangeRequest"@ != "DocumentFormattingRequest"@) by { reveal_strlit("FoldingRangeRequest"); reveal_strlit("DocumentFormattingRequest"); assert("FoldingRangeRequest"@.len() != "DocumentFormattingRequest"@.len()); }
    assert("FoldingRangeRequest"@ != "DocumentHighlightRequest"@) by { reveal_strlit("FoldingRangeRequest"); reveal_strlit("DocumentHighlightRequest"); assert("FoldingRangeRequest"@.len() != "DocumentHighlightRequest"@.len()); }
    assert("FoldingRangeRequest"@ != "DocumentLinkRequest"@) by { reveal_strlit("FoldingRangeRequest"); reveal_strlit("DocumentLinkRequest"); assert("FoldingRangeRequest"@[0] != "DocumentLinkRequest"@[0]); }
    assert("FoldingRangeRequest"@ != "DocumentOnTypeFormattingRequest"@) by { reveal_strlit("FoldingRangeRequest"); reveal_strlit("DocumentOnTypeFormattingRequest"); assert("FoldingRangeRequest"@.len() != "DocumentOnTypeFormattingRequest"@.len()); }
    assert("FoldingRangeRequest"@ != "DocumentRangeFormattingRequest"@) by { reveal_strlit("FoldingRangeRequest"); reveal_strlit("DocumentRangeFormattingRequest"); assert("FoldingRangeRequest"@.len() != "DocumentRangeFormattingRequest"@.len()); }
    assert("FoldingRangeRequest"@ != "DocumentRangesFormattingRequest"@) by { reveal_strlit("FoldingRangeRequest"); reveal_strlit("DocumentRangesFormattingRequest"); assert("FoldingRangeRequest"@.len() != "DocumentRangesFormattingRequest"@.len()); }
    assert("FoldingRangeRequest"@ != "DocumentSymbolRequest"@) by { reveal_strlit("FoldingRangeRequest"); reveal_strlit("DocumentSymbolRequest"); assert("FoldingRangeRequest"@.len() != "DocumentSymbolRequest"@.len()); }
    assert("FoldingRangeRequest"@ != "ExecuteCommandRequest"@) by { reveal_strlit("FoldingRangeRequest"); reveal_strlit("ExecuteCommandRequest"); assert("FoldingRangeRequest"@.len() != "ExecuteCommandRequest"@.len()); }
    assert("FoldingRangeRequest"@ != "FoldingRangeList"@) by { reveal_strlit("FoldingRangeRequest"); reveal_strlit("FoldingRangeList"); assert("FoldingRangeRequest"@.len() != "FoldingRangeList"@.len()); }
    assert("HoverRequest"@ != "CodeActionRequest"@) by { reveal_strlit("HoverRequest"); reveal_strlit("CodeActionRequest"); assert("HoverRequest"@.len() != "CodeActionRequest"@.len()); }
    assert("HoverRequest"@ != "CodeLensRequest"@) by { reveal_strlit("HoverRequest"); reveal_strlit("CodeLensRequest"); assert("HoverRequest"@.len() != "CodeLensRequest"@.len()); }
    assert("HoverRequest"@ != "CodeLensResolveRequest"@) by { reveal_strlit("HoverRequest"); reveal_strlit("CodeLensResolveRequest"); assert("HoverRequest"@.len() != "CodeLensResolveRequest"@.len()); }
    assert("HoverRequest"@ != "ColorPresentationRequest"@) by { reveal_strlit("HoverRequest"); reveal_strlit("ColorPresentationRequest"); assert("HoverRequest"@.len() != "ColorPresentationRequest"@.len()); }
    assert("HoverRequest"@ != "CompletionRequest"@) by { reveal_strlit("HoverRequest"); reveal_strlit("CompletionRequest"); assert("HoverRequest"@.len() != "CompletionRequest"@.len()); }
    assert("HoverRequest"@ != "CompletionResolveRequest"@) by { reveal_strlit("HoverRequest"); reveal_strlit("CompletionResolveRequest"); assert("HoverRequest"@.len() != "CompletionResolveRequest"@.len()); }
    assert("HoverRequest"@ != "DefinitionRequest"@) by { reveal_strlit("HoverRequest"); reveal_strlit("DefinitionRequest"); assert("HoverRequest"@.len() != "DefinitionRequest"@.len()); }
    assert("HoverRequest"@ != "DocumentColorRequest"@) by { reveal_strlit("HoverRequest"); reveal_strlit("DocumentColorRequest"); assert("HoverRequest"@.len() != "DocumentColorRequest"@.len()); }
    assert("HoverRequest"@ != "DocumentFormattingRequest"@) by { reveal_strlit("HoverRequest"); reveal_strlit("DocumentFormattingRequest"); assert("HoverRequest"@.len() != "DocumentFormattingRequest"@.len()); }
    assert("HoverRequest"@ != "DocumentHighlightRequest"@) by { reveal_strlit("HoverRequest"); reveal_strlit("DocumentHighlightRequest"); assert("HoverRequest"@.len() != "DocumentHighlightRequest"@.len()); }
    assert("HoverRequest"@ != "DocumentLinkRequest"@) by { reveal_strlit("HoverRequest"); reveal_strlit("DocumentLinkRequest"); assert("HoverRequest"@.len() != "DocumentLinkRequest"@.len()); }
    assert("HoverRequest"@ != "DocumentOnTypeFormattingRequest"@) by { reveal_strlit("HoverRequest"); reveal_strlit("DocumentOnTypeFormattingRequest"); assert("HoverRequest"@.len() != "DocumentOnTypeFormattingRequest"@.len()); }
    assert("HoverRequest"@ != "DocumentRangeFormattingRequest"@) by { reveal_strlit("HoverRequest"); reveal_strlit("DocumentRangeFormattingRequest"); assert("HoverRequest"@.len() != "DocumentRangeFormattingRequest"@.len()); }
    assert("HoverRequest"@ != "DocumentRangesFormattingRequest"@) by { reveal_strlit("HoverRequest"); reveal_strlit("DocumentRangesFormattingRequest"); assert("HoverRequest"@.len() != "DocumentRangesFormattingRequest"@.len()); }
    assert("HoverRequest"@ != "DocumentSymbolRequest"@) by { reveal_strlit("HoverRequest"); reveal_strlit("DocumentSymbolRequest"); assert("HoverRequest"@.len() != "DocumentSymbolRequest"@.len()); }
    assert("HoverRequest"@ != "ExecuteCommandRequest"@) by { reveal_strlit("HoverRequest"); reveal_strlit("ExecuteCommandRequest"); assert("HoverRequest"@.len() != "ExecuteCommandRequest"@.len()); }
    assert("HoverRequest"@ != "FoldingRangeList"@) by { reveal_strlit("HoverRequest"); reveal_strlit("FoldingRangeList"); assert("HoverRequest"@.len() != "FoldingRangeList"@.len()); }
    assert("HoverRequest"@ != "FoldingRangeRequest"@) by { reveal_strlit("HoverRequest"); reveal_strlit("FoldingRangeRequest"); assert("HoverRequest"@.len() != "FoldingRangeRequest"@.len()); }
    assert("InlayHintsParams"@ != "CodeActionRequest"@) by { reveal_strlit("InlayHintsParams"); reveal_strlit("CodeActionRequest"); assert("InlayHintsParams"@.len() != "CodeActionRequest"@.len()); }
    assert("InlayHintsParams"@ != "CodeLensRequest"@) by { reveal_strlit("InlayHintsParams"); reveal_strlit("CodeLensRequest"); assert("InlayHintsParams"@.len() != "CodeLensRequest"@.len()); }
    assert("InlayHintsParams"@ != "CodeLensResolveRequest"@) by { reveal_strlit("InlayHintsParams"); reveal_strlit("CodeLensResolveRequest"); assert("InlayHintsParams"@.len() != "CodeLensResolveRequest"@.len()); }
    assert("InlayHintsParams"@ != "ColorPresentationRequest"@) by { reveal_strlit("InlayHintsParams"); reveal_strlit("ColorPresentationRequest"); assert("InlayHintsParams"@.len() != "ColorPresentationRequest"@.len()); }
    assert("InlayHintsParams"@ != "CompletionRequest"@) by { reveal_strlit("InlayHintsParams"); reveal_strlit("CompletionRequest"); assert("InlayHintsParams"@.len() != "CompletionRequest"@.len()); }
    assert("InlayHintsParams"@ != "CompletionResolveRequest"@) by { reveal_strlit("InlayHintsParams"); reveal_strlit("CompletionResolveRequest"); assert("InlayHintsParams"@.len() != "CompletionResolveRequest"@.len()); }
    assert("InlayHintsParams"@ != "DefinitionRequest"@) by { reveal_strlit("InlayHintsParams"); reveal_strlit("DefinitionRequest"); assert("InlayHintsParams"@.len() != "DefinitionRequest"@.len()); }
    assert("InlayHintsParams"@ != "DocumentColorRequest"@) by { reveal_strlit("InlayHintsParams"); reveal_strlit("DocumentColorRequest"); assert("InlayHintsParams"@.len() != "DocumentColorRequest"@.len()); }
    assert("InlayHintsParams"@ != "DocumentFormattingRequest"@) by { reveal_strlit("InlayHintsParams"); reveal_strlit("DocumentFormattingRequest"); assert("InlayHintsParams"@.len() != "DocumentFormattingRequest"@.len()); }
    assert("InlayHintsParams"@ != "DocumentHighlightRequest"@) by { reveal_strlit("InlayHintsParams"); reveal_strlit("DocumentHighlightRequest"); assert("InlayHintsParams"@.len() != "DocumentHighlightRequest"@.len()); }
    assert("InlayHintsParams"@ != "DocumentLinkRequest"@) by { reveal_strlit("InlayHintsParams"); reveal_strlit("DocumentLinkRequest"); assert("InlayHintsParams"@.len() != "DocumentLinkRequest"@.len()); }
    assert("InlayHintsParams"@ != "DocumentOnTypeFormattingRequest"@) by { reveal_strlit("InlayHintsParams"); reveal_strlit("DocumentOnTypeFormattingRequest"); assert("InlayHintsParams"@.len() != "DocumentOnTypeFormattingRequest"@.len()); }
    assert("InlayHintsParams"@ != "DocumentRangeFormattingRequest"@) by { reveal_strlit("InlayHintsParams"); reveal_strlit("DocumentRangeFormattingRequest"); assert("InlayHintsParams"@.len() != "DocumentRangeFormattingRequest"@.len()); }
    assert("InlayHintsParams"@ != "DocumentRangesFormattingRequest"@) by { reveal_strlit("InlayHintsParams"); reveal_strlit("DocumentRangesFormattingRequest"); assert("InlayHintsParams"@.len() != "DocumentRangesFormattingRequest"@.len()); }
    assert("InlayHintsParams"@ != "DocumentSymbolRequest"@) by { reveal_strlit("InlayHintsParams"); reveal_strlit("DocumentSymbolRequest"); assert("InlayHintsParams"@.len() != "DocumentSymbolRequest"@.len()); }
    assert("InlayHintsParams"@ != "ExecuteCommandRequest"@) by { reveal_strlit("InlayHintsParams"); reveal_strlit("ExecuteCommandRequest"); assert("InlayHintsParams"@.len() != "ExecuteCommandRequest"@.len()); }
    assert("InlayHintsParams"@ != "FoldingRangeList"@) by { reveal_strlit("InlayHintsParams"); reveal_strlit("FoldingRangeList"); assert("InlayHintsParams"@[0] != "FoldingRangeList"@[0]); }
    assert("InlayHintsParams"@ != "FoldingRangeRequest"@) by { reveal_strlit("InlayHintsParams"); reveal_strlit("FoldingRangeRequest"); assert("InlayHintsParams"@.len() != "FoldingRangeRequest"@.len()); }
    assert("InlayHintsParams"@ != "HoverRequest"@) by { reveal_strlit("InlayHintsParams"); reveal_strlit("HoverRequest"); assert("InlayHintsParams"@.len() != "HoverRequest"@.len()); }
    assert("InlineCompletion"@ != "CodeActionRequest"@) by { reveal_strlit("InlineCompletion"); reveal_strlit("CodeActionRequest"); assert("InlineCompletion"@.len() != "CodeActionRequest"@.len()); }
    assert("InlineCompletion"@ != "CodeLensRequest"@) by { reveal_strlit("InlineCompletion"); reveal_strlit("CodeLensRequest"); assert("InlineCompletion"@.len() != "CodeLensRequest"@.len()); }
    assert("InlineCompletion"@ != "CodeLensResolveRequest"@) by { reveal_strlit("InlineCompletion"); reveal_strlit("CodeLensResolveRequest"); assert("InlineCompletion"@.len() != "CodeLensResolveRequest"@.len()); }
    assert("InlineCompletion"@ != "ColorPresentationRequest"@) by { reveal_strlit("InlineCompletion"); reveal_strlit("ColorPresentationRequest"); assert("InlineCompletion"@.len() != "ColorPresentationRequest"@.len()); }
    assert("InlineCompletion"@ != "CompletionRequest"@) by { reveal_strlit("InlineCompletion"); reveal_strlit("CompletionRequest"); assert("InlineCompletion"@.len() != "CompletionRequest"@.len()); }
    assert("InlineCompletion"@ != "CompletionResolveRequest"@) by { reveal_strlit("InlineCompletion"); reveal_strlit("CompletionResolveRequest"); assert("InlineCompletion"@.len() != "CompletionResolveRequest"@.len()); }
    assert("InlineCompletion"@ != "DefinitionRequest"@) by { reveal_strlit("InlineCompletion"); reveal_strlit("DefinitionRequest"); assert("InlineCompletion"@.len() != "DefinitionRequest"@.len()); }
    assert("InlineCompletion"@ != "DocumentColorRequest"@) by { reveal_strlit("InlineCompletion"); reveal_strlit("DocumentColorRequest"); assert("InlineCompletion"@.len() != "DocumentColorRequest"@.len()); }
    assert("InlineCompletion"@ != "DocumentFormattingRequest"@) by { reveal_strlit("InlineCompletion"); reveal_strlit("DocumentFormattingRequest"); assert("InlineCompletion"@.len() != "DocumentFormattingRequest"@.len()); }
    assert("InlineCompletion"@ != "DocumentHighlightRequest"@) by { reveal_strlit("InlineCompletion"); reveal_strlit("DocumentHighlightRequest"); assert("InlineCompletion"@.len() != "DocumentHighlightRequest"@.len()); }
    assert("InlineCompletion"@ != "DocumentLinkRequest"@) by { reveal_strlit("InlineCompletion"); reveal_strlit("DocumentLinkRequest"); assert("InlineCompletion"@.len() != "DocumentLinkRequest"@.len()); }
    assert("InlineCompletion"@ != "DocumentOnTypeFormattingRequest"@) by { reveal_strlit("InlineCompletion"); reveal_strlit("DocumentOnTypeFormattingRequest"); assert("InlineCompletion"@.len() != "DocumentOnTypeFormattingRequest"@.len()); }
    assert("InlineCompletion"@ != "DocumentRangeFormattingRequest"@) by { reveal_strlit("InlineCompletion"); reveal_strlit("DocumentRangeFormattingRequest"); assert("InlineCompletion"@.len() != "DocumentRangeFormattingRequest"@.len()); }
    assert("InlineCompletion"@ != "DocumentRangesFormattingRequest"@) by { reveal_strlit("InlineCompletion"); reveal_strlit("DocumentRangesFormattingRequest"); assert("InlineCompletion"@.len() != "DocumentRangesFormattingRequest"@.len()); }
    assert("InlineCompletion"@ != "DocumentSymbolRequest"@) by { reveal_strlit("InlineCompletion"); reveal_strlit("DocumentSymbolRequest"); assert("InlineCompletion"@.len() != "DocumentSymbolRequest"@.len()); }
    assert("InlineCompletion"@ != "ExecuteCommandRequest"@) by { reveal_strlit("InlineCompletion"); reveal_strlit("ExecuteCommandRequest"); assert("InlineCompletion"@.len() != "ExecuteCommandRequest"@.len()); }
    assert("InlineCompletion"@ != "FoldingRangeList"@) by { reveal_strlit("InlineCompletion"); reveal_strlit("FoldingRangeList"); assert("InlineCompletion"@[0] != "FoldingRangeList"@[0]); }
    assert("InlineCompletion"@ != "FoldingRangeRequest"@) by { reveal_strlit("InlineCompletion"); reveal_strlit("FoldingRangeRequest"); assert("InlineCompletion"@.len() != "FoldingRangeRequest"@.len()); }
    assert("InlineCompletion"@ != "HoverRequest"@) by { reveal_strlit("InlineCompletion"); reveal_strlit("HoverRequest"); assert("InlineCompletion"@.len() != "HoverRequest"@.len()); }
    assert("InlineCompletion"@ != "InlayHintsParams"@) by { reveal_strlit("InlineCompletion"); reveal_strlit("InlayHintsParams"); assert("InlineCompletion"@[3] != "InlayHintsParams"@[3]); }
    assert("ReferencesRequest"@ != "CodeActionRequest"@) by { reveal_strlit("ReferencesRequest"); reveal_strlit("CodeActionRequest"); assert("ReferencesRequest"@[0] != "CodeActionRequest"@[0]); }
    assert("ReferencesRequest"@ != "CodeLensRequest"@) by { reveal_strlit("ReferencesRequest"); reveal_strlit("CodeLensRequest"); assert("ReferencesRequest"@.len() != "CodeLensRequest"@.len()); }
    assert("ReferencesRequest"@ != "CodeLensResolveRequest"@) by { reveal_strlit("ReferencesRequest"); reveal_strlit("CodeLensResolveRequest"); assert("ReferencesRequest"@.len() != "CodeLensResolveRequest"@.len()); }
    assert("ReferencesRequest"@ != "ColorPresentationRequest"@) by { reveal_strlit("ReferencesRequest"); reveal_strlit("ColorPresentationRequest"); assert("ReferencesRequest"@.len() != "ColorPresentationRequest"@.len()); }
    assert("ReferencesRequest"@ != "CompletionRequest"@) by { reveal_strlit("ReferencesRequest"); reveal_strlit("CompletionRequest"); assert("ReferencesRequest"@[0] != "CompletionRequest"@[0]); }
    assert("ReferencesRequest"@ != "CompletionResolveRequest"@) by { reveal_strlit("ReferencesRequest"); reveal_strlit("CompletionResolveRequest"); assert("ReferencesRequest"@.len() != "CompletionResolveRequest"@.len()); }
    assert("ReferencesRequest"@ != "DefinitionRequest"@) by { reveal_strlit("ReferencesRequest"); reveal_strlit("DefinitionRequest"); assert("ReferencesRequest"@[0] != "DefinitionRequest"@[0]); }
    assert("ReferencesRequest"@ != "DocumentColorRequest"@) by { reveal_strlit("ReferencesRequest"); reveal_strlit("DocumentColorRequest"); assert("ReferencesRequest"@.len() != "DocumentColorRequest"@.len()); }
    assert("ReferencesRequest"@ != "DocumentFormattingRequest"@) by { reveal_strlit("ReferencesRequest"); reveal_strlit("DocumentFormattingRequest"); assert("ReferencesRequest"@.len() != "DocumentFormattingRequest"@.len()); }
    assert("ReferencesRequest"@ != "DocumentHighlightRequest"@) by { reveal_strlit("ReferencesRequest"); reveal_strlit("DocumentHighlightRequest"); assert("ReferencesRequest"@.len() != "DocumentHighlightRequest"@.len()); }
    assert("ReferencesRequest"@ != "DocumentLinkRequest"@) by { reveal_strlit("ReferencesRequest"); reveal_strlit("DocumentLinkRequest"); assert("ReferencesRequest"@.len() != "DocumentLinkRequest"@.len()); }
    assert("ReferencesRequest"@ != "DocumentOnTypeFormattingRequest"@) by { reveal_strlit("ReferencesRequest"); reveal_strlit("DocumentOnTypeFormattingRequest"); assert("ReferencesRequest"@.len() != "DocumentOnTypeFormattingRequest"@.len()); }
    assert("ReferencesRequest"@ != "DocumentRangeFormattingRequest"@) by { reveal_strlit("ReferencesRequest"); reveal_strlit("DocumentRangeFormattingRequest"); assert("ReferencesRequest"@.len() != "DocumentRangeFormattingRequest"@.len()); }
    assert("ReferencesRequest"@ != "DocumentRangesFormattingRequest"@) by { reveal_strlit("ReferencesRequest"); reveal_strlit("DocumentRangesFormattingRequest"); assert("ReferencesRequest"@.len() != "DocumentRangesFormattingRequest"@.len()); }
    assert("ReferencesRequest"@ != "DocumentSymbolRequest"@) by { reveal_strlit("ReferencesRequest"); reveal_strlit("DocumentSymbolRequest"); assert("ReferencesRequest"@.len() != "DocumentSymbolRequest"@.len()); }
    assert("ReferencesRequest"@ != "ExecuteCommandRequest"@) by { reveal_strlit("ReferencesRequest"); reveal_strlit("ExecuteCommandRequest"); assert("ReferencesRequest"@.len() != "ExecuteCommandRequest"@.len()); }
    assert("ReferencesRequest"@ != "FoldingRangeList"@) by { reveal_strlit("ReferencesRequest"); reveal_strlit("FoldingRangeList"); assert("ReferencesRequest"@.len() != "FoldingRangeList"@.len()); }
    assert("ReferencesRequest"@ != "FoldingRangeRequest"@) by { reveal_strlit("ReferencesRequest"); reveal_strlit("FoldingRangeRequest"); assert("ReferencesRequest"@.len() != "FoldingRangeRequest"@.len()); }
    assert("ReferencesRequest"@ != "HoverRequest"@) by { reveal_strlit("ReferencesRequest"); reveal_strlit("HoverRequest"); assert("ReferencesRequest"@.len() != "HoverRequest"@.len()); }
    assert("ReferencesRequest"@ != "InlayHintsParams"@) by { reveal_strlit("ReferencesRequest"); reveal_strlit("InlayHintsParams"); assert("ReferencesRequest"@.len() != "InlayHintsParams"@.len()); }
    assert("ReferencesRequest"@ != "InlineCompletion"@) by { reveal_strlit("ReferencesRequest"); reveal_strlit("InlineCompletion"); assert("ReferencesRequest"@.len() != "InlineCompletion"@.len()); }
    assert("RenameRequest"@ != "CodeActionRequest"@) by { reveal_strlit("RenameRequest"); reveal_strlit("CodeActionRequest"); assert("RenameRequest"@.len() != "CodeActionRequest"@.len()); }
    assert("RenameRequest"@ != "CodeLensRequest"@) by { reveal_strlit("RenameRequest"); reveal_strlit("CodeLensRequest"); assert("RenameRequest"@.len() != "CodeLensRequest"@.len()); }
    assert("RenameRequest"@ != "CodeLensResolveRequest"@) by { reveal_strlit("RenameRequest"); reveal_strlit("CodeLensResolveRequest"); assert("RenameRequest"@.len() != "CodeLensResolveRequest"@.len()); }
    assert("RenameRequest"@ != "ColorPresentationRequest"@) by { reveal_strlit("RenameRequest"); reveal_strlit("ColorPresentationRequest"); assert("RenameRequest"@.len() != "ColorPresentationRequest"@.len()); }
    assert("RenameRequest"@ != "CompletionRequest"@) by { reveal_strlit("RenameRequest"); reveal_strlit("CompletionRequest"); assert("RenameRequest"@.len() != "CompletionRequest"@.len()); }
    assert("RenameRequest"@ != "CompletionResolveRequest"@) by { reveal_strlit("RenameRequest"); reveal_strlit("CompletionResolveRequest"); assert("RenameRequest"@.len() != "CompletionResolveRequest"@.len()); }
    assert("RenameRequest"@ != "DefinitionRequest"@) by { reveal_strlit("RenameRequest"); reveal_strlit("DefinitionRequest"); assert("RenameRequest"@.len() != "DefinitionRequest"@.len()); }
    assert("RenameRequest"@ != "DocumentColorRequest"@) by { reveal_strlit("RenameRequest"); reveal_strlit("DocumentColorRequest"); assert("RenameRequest"@.len() != "DocumentColorRequest"@.len()); }
    assert("RenameRequest"@ != "DocumentFormattingRequest"@) by { reveal_strlit("RenameRequest"); reveal_strlit("DocumentFormattingRequest"); assert("RenameRequest"@.len() != "DocumentFormattingRequest"@.len()); }
    assert("RenameRequest"@ != "DocumentHighlightRequest"@) by { reveal_strlit("RenameRequest"); reveal_strlit("DocumentHighlightRequest"); assert("RenameRequest"@.len() != "DocumentHighlightRequest"@.len()); }
    assert("RenameRequest"@ != "DocumentLinkRequest"@) by { reveal_strlit("RenameRequest"); reveal_strlit("DocumentLinkRequest"); assert("RenameRequest"@.len() != "DocumentLinkRequest"@.len()); }
    assert("RenameRequest"@ != "DocumentOnTypeFormattingRequest"@) by { reveal_strlit("RenameRequest"); reveal_strlit("DocumentOnTypeFormattingRequest"); assert("RenameRequest"@.len() != "DocumentOnTypeFormattingRequest"@.len()); }
    assert("RenameRequest"@ != "DocumentRangeFormattingRequest"@) by { reveal_strlit("RenameRequest"); reveal_strlit("DocumentRangeFormattingRequest"); assert("RenameRequest"@.len() != "DocumentRangeFormattingRequest"@.len()); }
    assert("RenameRequest"@ != "DocumentRangesFormattingRequest"@) by { reveal_strlit("RenameRequest"); reveal_strlit("DocumentRangesFormattingRequest"); assert("RenameRequest"@.len() != "DocumentRangesFormattingRequest"@.len()); }
    assert("RenameRequest"@ != "DocumentSymbolRequest"@) by { reveal_strlit("RenameRequest"); reveal_strlit("DocumentSymbolRequest"); assert("RenameRequest"@.len() != "DocumentSymbolRequest"@.len()); }
    assert("RenameRequest"@ != "ExecuteCommandRequest"@) by { reveal_strlit("RenameRequest"); reveal_strlit("ExecuteCommandRequest"); assert("RenameRequest"@.len() != "ExecuteCommandRequest"@.len()); }
    assert("RenameRequest"@ != "FoldingRangeList"@) by { reveal_strlit("RenameRequest"); reveal_strlit("FoldingRangeList"); assert("RenameRequest"@.len() != "FoldingRangeList"@.len()); }
    assert("RenameRequest"@ != "FoldingRangeRequest"@) by { reveal_strlit("RenameRequest"); reveal_strlit("FoldingRangeRequest"); assert("RenameRequest"@.len() != "FoldingRangeRequest"@.len()); }
    assert("RenameRequest"@ != "HoverRequest"@) by { reveal_strlit("RenameRequest"); reveal_strlit("HoverRequest"); assert("RenameRequest"@.len() != "HoverRequest"@.len()); }
    assert("RenameRequest"@ != "InlayHintsParams"@) by { reveal_strlit("RenameRequest"); reveal_strlit("InlayHintsParams"); assert("RenameRequest"@.len() != "InlayHintsParams"@.len()); }
    assert("RenameRequest"@ != "InlineCompletion"@) by { reveal_strlit("RenameRequest"); reveal_strlit("InlineCompletion"); assert("RenameRequest"@.len() != "InlineCompletion"@.len()); }
    assert("RenameRequest"@ != "ReferencesRequest"@) by { reveal_strlit("RenameRequest"); reveal_strlit("ReferencesRequest"); assert("RenameRequest"@.len() != "ReferencesRequest"@.len()); }
    assert("ResponseError"@ != "CodeActionRequest"@) by { reveal_strlit("ResponseError"); reveal_strlit("CodeActionRequest"); assert("ResponseError"@.len() != "CodeActionRequest"@.len()); }
    assert("ResponseError"@ != "CodeLensRequest"@) by { reveal_strlit("ResponseError"); reveal_strlit("CodeLensRequest"); assert("ResponseError"@.len() != "CodeLensRequest"@.len()); }
    assert("ResponseError"@ != "CodeLensResolveRequest"@) by { reveal_strlit("ResponseError"); reveal_strlit("CodeLensResolveRequest"); assert("ResponseError"@.len() != "CodeLensResolveRequest"@.len()); }
    assert("ResponseError"@ != "ColorPresentationRequest"@) by { reveal_strlit("ResponseError"); reveal_strlit("ColorPresentationRequest"); assert("ResponseError"@.len() != "ColorPresentationRequest"@.len()); }
    assert("ResponseError"@ != "CompletionRequest"@) by { reveal_strlit("ResponseError"); reveal_strlit("CompletionRequest"); assert("ResponseError"@.len() != "CompletionRequest"@.len()); }
    assert("ResponseError"@ != "CompletionResolveRequest"@) by { reveal_strlit("ResponseError"); reveal_strlit("CompletionResolveRequest"); assert("ResponseError"@.len() != "CompletionResolveRequest"@.len()); }
    assert("ResponseError"@ != "DefinitionRequest"@) by { reveal_strlit("ResponseError"); reveal_strlit("DefinitionRequest"); assert("ResponseError"@.len() != "DefinitionRequest"@.len()); }
    assert("ResponseError"@ != "DocumentColorRequest"@) by { reveal_strlit("ResponseError"); reveal_strlit("DocumentColorRequest"); assert("ResponseError"@.len() != "DocumentColorRequest"@.len()); }
    assert("ResponseError"@ != "DocumentFormattingRequest"@) by { reveal_strlit("ResponseError"); reveal_strlit("DocumentFormattingRequest"); assert("ResponseError"@.len() != "DocumentFormattingRequest"@.len()); }
    assert("ResponseError"@ != "DocumentHighlightRequest"@) by { reveal_strlit("ResponseError"); reveal_strlit("DocumentHighlightRequest"); assert("ResponseError"@.len() != "DocumentHighlightRequest"@.len()); }
    assert("ResponseError"@ != "DocumentLinkRequest"@) by { reveal_strlit("ResponseError"); reveal_strlit("DocumentLinkRequest"); assert("ResponseError"@.len() != "DocumentLinkRequest"@.len()); }
    assert("ResponseError"@ != "DocumentOnTypeFormattingRequest"@) by { reveal_strlit("ResponseError"); reveal_strlit("DocumentOnTypeFormattingRequest"); assert("ResponseError"@.len() != "DocumentOnTypeFormattingRequest"@.len()); }
    assert("ResponseError"@ != "DocumentRangeFormattingRequest"@) by { reveal_strlit("ResponseError"); reveal_strlit("DocumentRangeFormattingRequest"); assert("ResponseError"@.len() != "DocumentRangeFormattingRequest"@.len()); }
    assert("ResponseError"@ != "DocumentRangesFormattingRequest"@) by { reveal_strlit("ResponseError"); reveal_strlit("DocumentRangesFormattingRequest"); assert("ResponseError"@.len() != "DocumentRangesFormattingRequest"@.len()); }
    assert("ResponseError"@ != "DocumentSymbolRequest"@) by { reveal_strlit("ResponseError"); reveal_strlit("DocumentSymbolRequest"); assert("ResponseError"@.len() != "DocumentSymbolRequest"@.len()); }
    assert("ResponseError"@ != "ExecuteCommandRequest"@) by { reveal_strlit("ResponseError"); reveal_strlit("ExecuteCommandRequest"); assert("ResponseError"@.len() != "ExecuteCommandRequest"@.len()); }
    assert("ResponseError"@ != "FoldingRangeList"@) by { reveal_strlit("ResponseError"); reveal_strlit("FoldingRangeList"); assert("ResponseError"@.len() != "FoldingRangeList"@.len()); }
    assert("ResponseError"@ != "FoldingRangeRequest"@) by { reveal_strlit("ResponseError"); reveal_strlit("FoldingRangeRequest"); assert("ResponseError"@.len() != "FoldingRangeRequest"@.len()); }
    assert("ResponseError"@ != "HoverRequest"@) by { reveal_strlit("ResponseError"); reveal_strlit("HoverRequest"); assert("ResponseError"@.len() != "HoverRequest"@.len()); }
    assert("ResponseError"@ != "InlayHintsParams"@) by { reveal_strlit("ResponseError"); reveal_strlit("InlayHintsParams"); assert("ResponseError"@.len() != "InlayHintsParams"@.len()); }
    assert("ResponseError"@ != "InlineCompletion"@) by { reveal_strlit("ResponseError"); reveal_strlit("InlineCompletion"); assert("ResponseError"@.len() != "InlineCompletion"@.len()); }
    assert("ResponseError"@ != "ReferencesRequest"@) by { reveal_strlit("ResponseError"); reveal_strlit("ReferencesRequest"); assert("ResponseError"@.len() != "ReferencesRequest"@.len()); }
    assert("ResponseError"@ != "RenameRequest"@) by { reveal_strlit("ResponseError"); reveal_strlit("RenameRequest"); assert("ResponseError"@[2] != "RenameRequest"@[2]); }
    assert("SignatureHelpRequest"@ != "CodeActionRequest"@) by { reveal_strlit("SignatureHelpRequest"); reveal_strlit("CodeActionRequest"); assert("SignatureHelpRequest"@.len() != "CodeActionRequest"@.len()); }
    assert("SignatureHelpRequest"@ != "CodeLensRequest"@) by { reveal_strlit("SignatureHelpRequest"); reveal_strlit("CodeLensRequest"); assert("SignatureHelpRequest"@.len() != "CodeLensRequest"@.len()); }
    assert("SignatureHelpRequest"@ != "CodeLensResolveRequest"@) by { reveal_strlit("SignatureHelpRequest"); reveal_strlit("CodeLensResolveRequest"); assert("SignatureHelpRequest"@.len() != "CodeLensResolveRequest"@.len()); }
    assert("SignatureHelpRequest"@ != "ColorPresentationRequest"@) by { reveal_strlit("SignatureHelpRequest"); reveal_strlit("ColorPresentationRequest"); assert("SignatureHelpRequest"@.len() != "ColorPresentationRequest"@.len()); }
    assert("SignatureHelpRequest"@ != "CompletionRequest"@) by { reveal_strlit("SignatureHelpRequest"); reveal_strlit("CompletionRequest"); assert("SignatureHelpRequest"@.len() != "CompletionRequest"@.len()); }
    assert("SignatureHelpRequest"@ != "CompletionResolveRequest"@) by { reveal_strlit("SignatureHelpRequest"); reveal_strlit("CompletionResolveRequest"); assert("SignatureHelpRequest"@.len() != "CompletionResolveRequest"@.len()); }
    assert("SignatureHelpRequest"@ != "DefinitionRequest"@) by { reveal_strlit("SignatureHelpRequest"); reveal_strlit("DefinitionRequest"); assert("SignatureHelpRequest"@.len() != "DefinitionRequest"@.len()); }
    assert("SignatureHelpRequest"@ != "DocumentColorRequest"@) by { reveal_strlit("SignatureHelpRequest"); reveal_strlit("DocumentColorRequest"); assert("SignatureHelpRequest"@[0] != "DocumentColorRequest"@[0]); }
    assert("SignatureHelpRequest"@ != "DocumentFormattingRequest"@) by { reveal_strlit("SignatureHelpRequest"); reveal_strlit("DocumentFormattingRequest"); assert("SignatureHelpRequest"@.len() != "DocumentFormattingRequest"@.len()); }
    assert("SignatureHelpRequest"@ != "DocumentHighlightRequest"@) by { reveal_strlit("SignatureHelpRequest"); reveal_strlit("DocumentHighlightRequest"); assert("SignatureHelpRequest"@.len() != "DocumentHighlightRequest"@.len()); }
    assert("SignatureHelpRequest"@ != "DocumentLinkRequest"@) by { reveal_strlit("SignatureHelpRequest"); reveal_strlit("DocumentLinkRequest"); assert("SignatureHelpRequest"@.len() != "DocumentLinkRequest"@.len()); }
    assert("SignatureHelpRequest"@ != "DocumentOnTypeFormattingRequest"@) by { reveal_strlit("SignatureHelpRequest"); reveal_strlit("DocumentOnTypeFormattingRequest"); assert("SignatureHelpRequest"@.len() != "DocumentOnTypeFormattingRequest"@.len()); }
    assert("SignatureHelpRequest"@ != "DocumentRangeFormattingRequest"@) by { reveal_strlit("SignatureHelpRequest"); reveal_strlit("DocumentRangeFormattingRequest"); assert("SignatureHelpRequest"@.len() != "DocumentRangeFormattingRequest"@.len()); }
    assert("SignatureHelpRequest"@ != "DocumentRangesFormattingRequest"@) by { reveal_strlit("SignatureHelpRequest"); reveal_strlit("DocumentRangesFormattingRequest"); assert("SignatureHelpRequest"@.len() != "DocumentRangesFormattingRequest"@.len()); }
    assert("SignatureHelpRequest"@ != "DocumentSymbolRequest"@) by { reveal_strlit("SignatureHelpRequest"); reveal_strlit("DocumentSymbolRequest"); assert("SignatureHelpRequest"@.len() != "DocumentSymbolRequest"@.len()); }
    assert("SignatureHelpRequest"@ != "ExecuteCommandRequest"@) by { reveal_strlit("SignatureHelpRequest"); reveal_strlit("ExecuteCommandRequest"); assert("SignatureHelpRequest"@.len() != "ExecuteCommandRequest"@.len()); }
    assert("SignatureHelpRequest"@ != "FoldingRangeList"@) by { reveal_strlit("SignatureHelpRequest"); reveal_strlit("FoldingRangeList"); assert("SignatureHelpRequest"@.len() != "FoldingRangeList"@.len()); }
    assert("SignatureHelpRequest"@ != "FoldingRangeRequest"@) by { reveal_strlit("SignatureHelpRequest"); reveal_strlit("FoldingRangeRequest"); assert("SignatureHelpRequest"@.len() != "FoldingRangeRequest"@.len()); }
    assert("SignatureHelpRequest"@ != "HoverRequest"@) by { reveal_strlit("SignatureHelpRequest"); reveal_strlit("HoverRequest"); assert("SignatureHelpRequest"@.len() != "HoverRequest"@.len()); }
    assert("SignatureHelpRequest"@ != "InlayHintsParams"@) by { reveal_strlit("SignatureHelpRequest"); reveal_strlit("InlayHintsParams"); assert("SignatureHelpRequest"@.len() != "InlayHintsParams"@.len()); }
    assert("SignatureHelpRequest"@ != "InlineCompletion"@) by { reveal_strlit("SignatureHelpRequest"); reveal_strlit("InlineCompletion"); assert("SignatureHelpRequest"@.len() != "InlineCompletion"@.len()); }
    assert("SignatureHelpRequest"@ != "ReferencesRequest"@) by { reveal_strlit("SignatureHelpRequest"); reveal_strlit("ReferencesRequest"); assert("SignatureHelpRequest"@.len() != "ReferencesRequest"@.len()); }
    assert("SignatureHelpRequest"@ != "RenameRequest"@) by { reveal_strlit("SignatureHelpRequest"); reveal_strlit("RenameRequest"); assert("SignatureHelpRequest"@.len() != "RenameRequest"@.len()); }
    assert("SignatureHelpRequest"@ != "ResponseError"@) by { reveal_strlit("SignatureHelpRequest"); reveal_strlit("ResponseError"); assert("SignatureHelpRequest"@.len() != "ResponseError"@.len()); }
    assert("TextDocumentPosition"@ != "CodeActionRequest"@) by { reveal_strlit("TextDocumentPosition"); reveal_strlit("CodeActionRequest"); assert("TextDocumentPosition"@.len() != "CodeActionRequest"@.len()); }
    assert("TextDocumentPosition"@ != "CodeLensRequest"@) by { reveal_strlit("TextDocumentPosition"); reveal_strlit("CodeLensRequest"); assert("TextDocumentPosition"@.len() != "CodeLensRequest"@.len()); }
    assert("TextDocumentPosition"@ != "CodeLensResolveRequest"@) by { reveal_strlit("TextDocumentPosition"); reveal_strlit("CodeLensResolveRequest"); assert("TextDocumentPosition"@.len() != "CodeLensResolveRequest"@.len()); }
    assert("TextDocumentPosition"@ != "ColorPresentationRequest"@) by { reveal_strlit("TextDocumentPosition"); reveal_strlit("ColorPresentationRequest"); assert("TextDocumentPosition"@.len() != "ColorPresentationRequest"@.len()); }
    assert("TextDocumentPosition"@ != "CompletionRequest"@) by { reveal_strlit("TextDocumentPosition"); reveal_strlit("CompletionRequest"); assert("TextDocumentPosition"@.len() != "CompletionRequest"@.len()); }
    assert("TextDocumentPosition"@ != "CompletionResolveRequest"@) by { reveal_strlit("TextDocumentPosition"); reveal_strlit("CompletionResolveRequest"); assert("TextDocumentPosition"@.len() != "CompletionResolveRequest"@.len()); }
    assert("TextDocumentPosition"@ != "DefinitionRequest"@) by { reveal_strlit("TextDocumentPosition"); reveal_strlit("DefinitionRequest"); assert("TextDocumentPosition"@.len() != "DefinitionRequest"@.len()); }
    assert("TextDocumentPosition"@ != "DocumentColorRequest"@) by { reveal_strlit("TextDocumentPosition"); reveal_strlit("DocumentColorRequest"); assert("TextDocumentPosition"@[0] != "DocumentColorRequest"@[0]); }
    assert("TextDocumentPosition"@ != "DocumentFormattingRequest"@) by { reveal_strlit("TextDocumentPosition"); reveal_strlit("DocumentFormattingRequest"); assert("TextDocumentPosition"@.len() != "DocumentFormattingRequest"@.len()); }
    assert("TextDocumentPosition"@ != "DocumentHighlightRequest"@) by { reveal_strlit("TextDocumentPosition"); reveal_strlit("DocumentHighlightRequest"); assert("TextDocumentPosition"@.len() != "DocumentHighlightRequest"@.len()); }
    assert("TextDocumentPosition"@ != "DocumentLinkRequest"@) by { reveal_strlit("TextDocumentPosition"); reveal_strlit("DocumentLinkRequest"); assert("TextDocumentPosition"@.len() != "DocumentLinkRequest"@.len()); }
    assert("TextDocumentPosition"@ != "DocumentOnTypeFormattingRequest"@) by { reveal_strlit("TextDocumentPosition"); reveal_strlit("DocumentOnTypeFormattingRequest"); assert("TextDocumentPosition"@.len() != "DocumentOnTypeFormattingRequest"@.len()); }
    assert("TextDocumentPosition"@ != "DocumentRangeFormattingRequest"@) by { reveal_strlit("TextDocumentPosition"); reveal_strlit("DocumentRangeFormattingRequest"); assert("TextDocumentPosition"@.len() != "DocumentRangeFormattingRequest"@.len()); }
    assert("TextDocumentPosition"@ != "DocumentRangesFormattingRequest"@) by { reveal_strlit("TextDocumentPosition"); reveal_strlit("DocumentRangesFormattingRequest"); assert("TextDocumentPosition"@.len() != "DocumentRangesFormattingRequest"@.len()); }
    assert("TextDocumentPosition"@ != "DocumentSymbolRequest"@) by { reveal_strlit("TextDocumentPosition"); reveal_strlit("DocumentSymbolRequest"); assert("TextDocumentPosition"@.len() != "DocumentSymbolRequest"@.len()); }
    assert("TextDocumentPosition"@ != "ExecuteCommandRequest"@) by { reveal_strlit("TextDocumentPosition"); reveal_strlit("ExecuteCommandRequest"); assert("TextDocumentPosition"@.len() != "ExecuteCommandRequest"@.len()); }
    assert("TextDocumentPosition"@ != "FoldingRangeList"@) by { reveal_strlit("TextDocumentPosition"); reveal_strlit("FoldingRangeList"); assert("TextDocumentPosition"@.len() != "FoldingRangeList"@.len()); }
    assert("TextDocumentPosition"@ != "FoldingRangeRequest"@) by { reveal_strlit("TextDocumentPosition"); reveal_strlit("FoldingRangeRequest"); assert("TextDocumentPosition"@.len() != "FoldingRangeRequest"@.len()); }
    assert("TextDocumentPosition"@ != "HoverRequest"@) by { reveal_strlit("TextDocumentPosition"); reveal_strlit("HoverRequest"); assert("TextDocumentPosition"@.len() != "HoverRequest"@.len()); }
    assert("TextDocumentPosition"@ != "InlayHintsParams"@) by { reveal_strlit("TextDocumentPosition"); reveal_strlit("InlayHintsParams"); assert("TextDocumentPosition"@.len() != "InlayHintsParams"@.len()); }
    assert("TextDocumentPosition"@ != "InlineCompletion"@) by { reveal_strlit("TextDocumentPosition"); reveal_strlit("InlineCompletion"); assert("TextDocumentPosition"@.len() != "InlineCompletion"@.len()); }
    assert("TextDocumentPosition"@ != "ReferencesRequest"@) by { reveal_strlit("TextDocumentPosition"); reveal_strlit("ReferencesRequest"); assert("TextDocumentPosition"@.len() != "ReferencesRequest"@.len()); }
    assert("TextDocumentPosition"@ != "RenameRequest"@) by { reveal_strlit("TextDocumentPosition"); reveal_strlit("RenameRequest"); assert("TextDocumentPosition"@.len() != "RenameRequest"@.len()); }
    assert("TextDocumentPosition"@ != "ResponseError"@) by { reveal_strlit("TextDocumentPosition"); reveal_strlit("ResponseError"); assert("TextDocumentPosition"@.len() != "ResponseError"@.len()); }
    assert("TextDocumentPosition"@ != "SignatureHelpRequest"@) by { reveal_strlit("TextDocumentPosition"); reveal_strlit("SignatureHelpRequest"); assert("TextDocumentPosition"@[0] != "SignatureHelpRequest"@[0]); }
    assert("WorkspaceSymbolRequest"@ != "CodeActionRequest"@) by { reveal_strlit("WorkspaceSymbolRequest"); reveal_strlit("CodeActionRequest"); assert("WorkspaceSymbolRequest"@.len() != "CodeActionRequest"@.len()); }
    assert("WorkspaceSymbolRequest"@ != "CodeLensRequest"@) by { reveal_strlit("WorkspaceSymbolRequest"); reveal_strlit("CodeLensRequest"); assert("WorkspaceSymbolRequest"@.len() != "CodeLensRequest"@.len()); }
    assert("WorkspaceSymbolRequest"@ != "CodeLensResolveRequest"@) by { reveal_strlit("WorkspaceSymbolRequest"); reveal_strlit("CodeLensResolveRequest"); assert("WorkspaceSymbolRequest"@[0] != "CodeLensResolveRequest"@[0]); }
    assert("WorkspaceSymbolRequest"@ != "ColorPresentationRequest"@) by { reveal_strlit("WorkspaceSymbolRequest"); reveal_strlit("ColorPresentationRequest"); assert("WorkspaceSymbolRequest"@.len() != "ColorPresentationRequest"@.len()); }
    assert("WorkspaceSymbolRequest"@ != "CompletionRequest"@) by { reveal_strlit("WorkspaceSymbolRequest"); reveal_strlit("CompletionRequest"); assert("WorkspaceSymbolRequest"@.len() != "CompletionRequest"@.len()); }
    assert("WorkspaceSymbolRequest"@ != "CompletionResolveRequest"@) by { reveal_strlit("WorkspaceSymbolRequest"); reveal_strlit("CompletionResolveRequest"); assert("WorkspaceSymbolRequest"@.len() != "CompletionResolveRequest"@.len()); }
    assert("WorkspaceSymbolRequest"@ != "DefinitionRequest"@) by { reveal_strlit("WorkspaceSymbolRequest"); reveal_strlit("DefinitionRequest"); assert("WorkspaceSymbolRequest"@.len() != "DefinitionRequest"@.len()); }
    assert("WorkspaceSymbolRequest"@ != "DocumentColorRequest"@) by { reveal_strlit("WorkspaceSymbolRequest"); reveal_strlit("DocumentColorRequest"); assert("WorkspaceSymbolRequest"@.len() != "DocumentColorRequest"@.len()); }
    assert("WorkspaceSymbolRequest"@ != "DocumentFormattingRequest"@) by { reveal_strlit("WorkspaceSymbolRequest"); reveal_strlit("DocumentFormattingRequest"); assert("WorkspaceSymbolRequest"@.len() != "DocumentFormattingRequest"@.len()); }
    assert("WorkspaceSymbolRequest"@ != "DocumentHighlightRequest"@) by { reveal_strlit("WorkspaceSymbolRequest"); reveal_strlit("DocumentHighlightRequest"); assert("WorkspaceSymbolRequest"@.len() != "DocumentHighlightRequest"@.len()); }
    assert("WorkspaceSymbolRequest"@ != "DocumentLinkRequest"@) by { reveal_strlit("WorkspaceSymbolRequest"); reveal_strlit("DocumentLinkRequest"); assert("WorkspaceSymbolRequest"@.len() != "DocumentLinkRequest"@.len()); }
    assert("WorkspaceSymbolRequest"@ != "DocumentOnTypeFormattingRequest"@) by { reveal_strlit("WorkspaceSymbolRequest"); reveal_strlit("DocumentOnTypeFormattingRequest"); assert("WorkspaceSymbolRequest"@.len() != "DocumentOnTypeFormattingRequest"@.len()); }
    assert("WorkspaceSymbolRequest"@ != "DocumentRangeFormattingRequest"@) by { reveal_strlit("WorkspaceSymbolRequest"); reveal_strlit("DocumentRangeFormattingRequest"); assert("WorkspaceSymbolRequest"@.len() != "DocumentRangeFormattingRequest"@.len()); }
    assert("WorkspaceSymbolRequest"@ != "DocumentRangesFormattingRequest"@) by { reveal_strlit("WorkspaceSymbolRequest"); reveal_strlit("DocumentRangesFormattingRequest"); assert("WorkspaceSymbolRequest"@.len() != "DocumentRangesFormattingRequest"@.len()); }
    assert("WorkspaceSymbolRequest"@ != "DocumentSymbolRequest"@) by { reveal_strlit("WorkspaceSymbolRequest"); reveal_strlit("DocumentSymbolRequest"); assert("WorkspaceSymbolRequest"@.len() != "DocumentSymbolRequest"@.len()); }
    assert("WorkspaceSymbolRequest"@ != "ExecuteCommandRequest"@) by { reveal_strlit("WorkspaceSymbolRequest"); reveal_strlit("ExecuteCommandRequest"); assert("WorkspaceSymbolRequest"@.len() != "ExecuteCommandRequest"@.len()); }
    assert("WorkspaceSymbolRequest"@ != "FoldingRangeList"@) by { reveal_strlit("WorkspaceSymbolRequest"); reveal_strlit("FoldingRangeList"); assert("WorkspaceSymbolRequest"@.len() != "FoldingRangeList"@.len()); }
    assert("WorkspaceSymbolRequest"@ != "FoldingRangeRequest"@) by { reveal_strlit("WorkspaceSymbolRequest"); reveal_strlit("FoldingRangeRequest"); assert("WorkspaceSymbolRequest"@.len() != "FoldingRangeRequest"@.len()); }
    assert("WorkspaceSymbolRequest"@ != "HoverRequest"@) by { reveal_strlit("WorkspaceSymbolRequest"); reveal_strlit("HoverRequest"); assert("WorkspaceSymbolRequest"@.len() != "HoverRequest"@.len()); }
    assert("WorkspaceSymbolRequest"@ != "InlayHintsParams"@) by { reveal_strlit("WorkspaceSymbolRequest"); reveal_strlit("InlayHintsParams"); assert("WorkspaceSymbolRequest"@.len() != "InlayHintsParams"@.len()); }
    assert("WorkspaceSymbolRequest"@ != "InlineCompletion"@) by { reveal_strlit("WorkspaceSymbolRequest"); reveal_strlit("InlineCompletion"); assert("WorkspaceSymbolRequest"@.len() != "InlineCompletion"@.len()); }
    assert("WorkspaceSymbolRequest"@ != "ReferencesRequest"@) by { reveal_strlit("WorkspaceSymbolRequest"); reveal_strlit("ReferencesRequest"); assert("WorkspaceSymbolRequest"@.len() != "ReferencesRequest"@.len()); }
    assert("WorkspaceSymbolRequest"@ != "RenameRequest"@) by { reveal_strlit("WorkspaceSymbolRequest"); reveal_strlit("RenameRequest"); assert("WorkspaceSymbolRequest"@.len() != "RenameRequest"@.len()); }
    assert("WorkspaceSymbolRequest"@ != "ResponseError"@) by { reveal_strlit("WorkspaceSymbolRequest"); reveal_strlit("ResponseError"); assert("WorkspaceSymbolRequest"@.len() != "ResponseError"@.len()); }
    assert("WorkspaceSymbolRequest"@ != "SignatureHelpRequest"@) by { reveal_strlit("WorkspaceSymbolRequest"); reveal_strlit("SignatureHelpRequest"); assert("WorkspaceSymbolRequest"@.len() != "SignatureHelpRequest"@.len()); }
    assert("WorkspaceSymbolRequest"@ != "TextDocumentPosition"@) by { reveal_strlit("WorkspaceSymbolRequest"); reveal_strlit("TextDocumentPosition"); assert("WorkspaceSymbolRequest"@.len() != "TextDocumentPosition"@.len()); }
}

/// A name that is none of the known items' names and none of the table's
/// keys resolves by the first prefix rule it matches; so a name that starts
/// with `CallHierarchyItemProvider` resolves as a `CallHierarchyItem` name.
#[verifier::rlimit(80)]
pub proof fn lemma_resolve_prefixes(
    requests: Set<Seq<char>>,
    notifications: Set<Seq<char>>,
    roots: Set<Seq<char>>,
    name: Seq<char>,
)
    requires
        !requests.contains(name),
        !notifications.contains(name),
        !roots.contains(name),
    ensures
        "CallHierarchyIncomingCall"@.is_prefix_of(name) ==> resolved_path(requests, notifications, roots, name) == "crate::CallHierarchyIncomingCall"@,
        "CallHierarchyItem"@.is_prefix_of(name) ==> resolved_path(requests, notifications, roots, name) == "crate::CallHierarchyItem"@,
        "CallHierarchyItemProvider"@.is_prefix_of(name) ==> resolved_path(requests, notifications, roots, name) == "crate::CallHierarchyItem"@,
        "CallHierarchyOutgoingCall"@.is_prefix_of(name) ==> resolved_path(requests, notifications, roots, name) == "crate::CallHierarchyOutgoingCall"@,
        "CodeActionProvider"@.is_prefix_of(name) ==> resolved_path(requests, notifications, roots, name) == "crate::request::TextDocumentCodeAction"@,
        "ColorPresentation"@.is_prefix_of(name) && name != "ColorPresentationRequest"@ ==> resolved_path(requests, notifications, roots, name) == "crate::ColorPresentation"@,
        "CompletionItem"@.is_prefix_of(name) ==> resolved_path(requests, notifications, roots, name) == "crate::CompletionItem"@,
        "DocumentHighlightKind"@.is_prefix_of(name) ==> resolved_path(requests, notifications, roots, name) == "crate::DocumentHighlightKind"@,
        "InlineCompletionItem"@.is_prefix_of(name) ==> resolved_path(requests, notifications, roots, name) == "crate::InlineCompletionItem"@,
        "TextDocument"@.is_prefix_of(name) && name != "TextDocumentPosition"@ ==> resolved_path(requests, notifications, roots, name) == "crate::TextDocumentIdentifier"@,
        "TypeHierarchyItem"@.is_prefix_of(name) ==> resolved_path(requests, notifications, roots, name) == "crate::TypeHierarchyItem"@,
        "Uri"@.is_prefix_of(name) ==> resolved_path(requests, notifications, roots, name) == "String"@,
{
    if "CallHierarchyIncomingCall"@.is_prefix_of(name) {
            assert("CallHierarchyIncomingCall"@[1] != "CodeActionRequest"@[1] && 1 < "CallHierarchyIncomingCall"@.len() && 1 < "CodeActionRequest"@.len()) by { reveal_strlit("CallHierarchyIncomingCall"); reveal_strlit("CodeActionRequest"); }
            lemma_prefix_conflict("CallHierarchyIncomingCall"@, "CodeActionRequest"@, name, 1);
            assert("CallHierarchyIncomingCall"@[1] != "CodeLensRequest"@[1] && 1 < "CallHierarchyIncomingCall"@.len() && 1 < "CodeLensRequest"@.len()) by { reveal_strlit("CallHierarchyIncomingCall"); reveal_strlit("CodeLensRequest"); }
            lemma_prefix_conflict("CallHierarchyIncomingCall"@, "CodeLensRequest"@, name, 1);
            assert("CallHierarchyIncomingCall"@[1] != "CodeLensResolveRequest"@[1] && 1 < "CallHierarchyIncomingCall"@.len() && 1 < "CodeLensResolveRequest"@.len()) by { reveal_strlit("CallHierarchyIncomingCall"); reveal_strlit("CodeLensResolveRequest"); }
            lemma_prefix_conflict("CallHierarchyIncomingCall"@, "CodeLensResolveRequest"@, name, 1);
            assert("CallHierarchyIncomingCall"@[1] != "ColorPresentationRequest"@[1] && 1 < "CallHierarchyIncomingCall"@.len() && 1 < "ColorPresentationRequest"@.len()) by { reveal_strlit("CallHierarchyIncomingCall"); reveal_strlit("ColorPresentationRequest"); }
            lemma_prefix_conflict("CallHierarchyIncomingCall"@, "ColorPresentationRequest"@, name, 1);
            assert("CallHierarchyIncomingCall"@[1] != "CompletionRequest"@[1] && 1 < "CallHierarchyIncomingCall"@.len() && 1 < "CompletionRequest"@.len()) by { reveal_strlit("CallHierarchyIncomingCall"); reveal_strlit("CompletionRequest"); }
            lemma_prefix_conflict("CallHierarchyIncomingCall"@, "CompletionRequest"@, name, 1);
            assert("CallHierarchyIncomingCall"@[1] != "CompletionResolveRequest"@[1] && 1 < "CallHierarchyIncomingCall"@.len() && 1 < "CompletionResolveRequest"@.len()) by { reveal_strlit("CallHierarchyIncomingCall"); reveal_strlit("CompletionResolveRequest"); }
            lemma_prefix_conflict("CallHierarchyIncomingCall"@, "CompletionResolveRequest"@, name, 1);
            assert("CallHierarchyIncomingCall"@[0] != "DefinitionRequest"@[0] && 0 < "CallHierarchyIncomingCall"@.len() && 0 < "DefinitionRequest"@.len()) by { reveal_strlit("CallHierarchyIncomingCall"); reveal_strlit("DefinitionRequest"); }
            lemma_prefix_conflict("CallHierarchyIncomingCall"@, "DefinitionRequest"@, name, 0);
            assert("CallHierarchyIncomingCall"@[0] != "DocumentColorRequest"@[0] && 0 < "CallHierarchyIncomingCall"@.len() && 0 < "DocumentColorRequest"@.len()) by { reveal_strlit("CallHierarchyIncomingCall"); reveal_strlit("DocumentColorRequest"); }
            lemma_prefix_conflict("CallHierarchyIncomingCall"@, "DocumentColorRequest"@, name, 0);
            assert("CallHierarchyIncomingCall"@[0] != "DocumentFormattingRequest"@[0] && 0 < "CallHierarchyIncomingCall"@.len() && 0 < "DocumentFormattingRequest"@.len()) by { reveal_strlit("CallHierarchyIncomingCall"); reveal_strlit("DocumentFormattingRequest"); }
            lemma_prefix_conflict("CallHierarchyIncomingCall"@, "DocumentFormattingRequest"@, name, 0);
            assert("CallHierarchyIncomingCall"@[0] != "DocumentHighlightRequest"@[0] && 0 < "CallHierarchyIncomingCall"@.len() && 0 < "DocumentHighlightRequest"@.len()) by { reveal_strlit("CallHierarchyIncomingCall"); reveal_strlit("DocumentHighlightRequest"); }
            lemma_prefix_conflict("CallHierarchyIncomingCall"@, "DocumentHighlightRequest"@, name, 0);
            assert("CallHierarchyIncomingCall"@[0] != "DocumentLinkRequest"@[0] && 0 < "CallHierarchyIncomingCall"@.len() && 0 < "DocumentLinkRequest"@.len()) by { reveal_strlit("CallHierarchyIncomingCall"); reveal_strlit("DocumentLinkRequest"); }
            lemma_prefix_conflict("CallHierarchyIncomingCall"@, "DocumentLinkRequest"@, name, 0);
            assert("CallHierarchyIncomingCall"@[0] != "DocumentOnTypeFormattingRequest"@[0] && 0 < "CallHierarchyIncomingCall"@.len() && 0 < "DocumentOnTypeFormattingRequest"@.len()) by { reveal_strlit("CallHierarchyIncomingCall"); reveal_strlit("DocumentOnTypeFormattingRequest"); }
            lemma_prefix_conflict("CallHierarchyIncomingCall"@, "DocumentOnTypeFormattingRequest"@, name, 0);
            assert("CallHierarchyIncomingCall"@[0] != "DocumentRangeFormattingRequest"@[0] && 0 < "CallHierarchyIncomingCall"@.len() && 0 < "DocumentRangeFormattingRequest"@.len()) by { reveal_strlit("CallHierarchyIncomingCall"); reveal_strlit("DocumentRangeFormattingRequest"); }
            lemma_prefix_conflict("CallHierarchyIncomingCall"@, "DocumentRangeFormattingRequest"@, name, 0);
            assert("CallHierarchyIncomingCall"@[0] != "DocumentRangesFormattingRequest"@[0] && 0 < "CallHierarchyIncomingCall"@.len() && 0 < "DocumentRangesFormattingRequest"@.len()) by { reveal_strlit("CallHierarchyIncomingCall"); reveal_strlit("DocumentRangesFormattingRequest"); }
            lemma_prefix_conflict("CallHierarchyIncomingCall"@, "DocumentRangesFormattingRequest"@, name, 0);
            assert("CallHierarchyIncomingCall"@[0] != "DocumentSymbolRequest"@[0] && 0 < "CallHierarchyIncomingCall"@.len() && 0 < "DocumentSymbolRequest"@.len()) by { reveal_strlit("CallHierarchyIncomingCall"); reveal_strlit("DocumentSymbolRequest"); }
            lemma_prefix_conflict("CallHierarchyIncomingCall"@, "DocumentSymbolRequest"@, name, 0);
            assert("CallHierarchyIncomingCall"@[0] != "ExecuteCommandRequest"@[0] && 0 < "CallHierarchyIncomingCall"@.len() && 0 < "ExecuteCommandRequest"@.len()) by { reveal_strlit("CallHierarchyIncomingCall"); reveal_strlit("ExecuteCommandRequest"); }
            lemma_prefix_conflict("CallHierarchyIncomingCall"@, "ExecuteCommandRequest"@, name, 0);
            assert("CallHierarchyIncomingCall"@[0] != "FoldingRangeList"@[0] && 0 < "CallHierarchyIncomingCall"@.len() && 0 < "FoldingRangeList"@.len()) by { reveal_strlit("CallHierarchyIncomingCall"); reveal_strlit("FoldingRangeList"); }
            lemma_prefix_conflict("CallHierarchyIncomingCall"@, "FoldingRangeList"@, name, 0);
            assert("CallHierarchyIncomingCall"@[0] != "FoldingRangeRequest"@[0] && 0 < "CallHierarchyIncomingCall"@.len() && 0 < "FoldingRangeRequest"@.len()) by { reveal_strlit("CallHierarchyIncomingCall"); reveal_strlit("FoldingRangeRequest"); }
            lemma_prefix_conflict("CallHierarchyIncomingCall"@, "FoldingRangeRequest"@, name, 0);
            assert("CallHierarchyIncomingCall"@[0] != "HoverRequest"@[0] && 0 < "CallHierarchyIncomingCall"@.len() && 0 < "HoverRequest"@.len()) by { reveal_strlit("CallHierarchyIncomingCall"); reveal_strlit("HoverRequest"); }
            lemma_prefix_conflict("CallHierarchyIncomingCall"@, "HoverRequest"@, name, 0);
            assert("CallHierarchyIncomingCall"@[0] != "InlayHintsParams"@[0] && 0 < "CallHierarchyIncomingCall"@.len() && 0 < "InlayHintsParams"@.len()) by { reveal_strlit("CallHierarchyIncomingCall"); reveal_strlit("InlayHintsParams"); }
            lemma_prefix_conflict("CallHierarchyIncomingCall"@, "InlayHintsParams"@, name, 0);
            assert("CallHierarchyIncomingCall"@[0] != "InlineCompletion"@[0] && 0 < "CallHierarchyIncomingCall"@.len() && 0 < "InlineCompletion"@.len()) by { reveal_strlit("CallHierarchyIncomingCall"); reveal_strlit("InlineCompletion"); }
            lemma_prefix_conflict("CallHierarchyIncomingCall"@, "InlineCompletion"@, name, 0);
            assert("CallHierarchyIncomingCall"@[0] != "ReferencesRequest"@[0] && 0 < "CallHierarchyIncomingCall"@.len() && 0 < "ReferencesRequest"@.len()) by { reveal_strlit("CallHierarchyIncomingCall"); reveal_strlit("ReferencesRequest"); }
            lemma_prefix_conflict("CallHierarchyIncomingCall"@, "ReferencesRequest"@, name, 0);
            assert("CallHierarchyIncomingCall"@[0] != "RenameRequest"@[0] && 0 < "CallHierarchyIncomingCall"@.len() && 0 < "RenameRequest"@.len()) by { reveal_strlit("CallHierarchyIncomingCall"); reveal_strlit("RenameRequest"); }
            lemma_prefix_conflict("CallHierarchyIncomingCall"@, "RenameRequest"@, name, 0);
            assert("CallHierarchyIncomingCall"@[0] != "ResponseError"@[0] && 0 < "CallHierarchyIncomingCall"@.len() && 0 < "ResponseError"@.len()) by { reveal_strlit("CallHierarchyIncomingCall"); reveal_strlit("ResponseError"); }
            lemma_prefix_conflict("CallHierarchyIncomingCall"@, "ResponseError"@, name, 0);
            assert("CallHierarchyIncomingCall"@[0] != "SignatureHelpRequest"@[0] && 0 < "CallHierarchyIncomingCall"@.len() && 0 < "SignatureHelpRequest"@.len()) by { reveal_strlit("CallHierarchyIncomingCall"); reveal_strlit("SignatureHelpRequest"); }
            lemma_prefix_conflict("CallHierarchyIncomingCall"@, "SignatureHelpRequest"@, name, 0);
            assert("CallHierarchyIncomingCall"@[0] != "TextDocumentPosition"@[0] && 0 < "CallHierarchyIncomingCall"@.len() && 0 < "TextDocumentPosition"@.len()) by { reveal_strlit("CallHierarchyIncomingCall"); reveal_strlit("TextDocumentPosition"); }
            lemma_prefix_conflict("CallHierarchyIncomingCall"@, "TextDocumentPosition"@, name, 0);
            assert("CallHierarchyIncomingCall"@[0] != "WorkspaceSymbolRequest"@[0] && 0 < "CallHierarchyIncomingCall"@.len() && 0 < "WorkspaceSymbolRequest"@.len()) by { reveal_strlit("CallHierarchyIncomingCall"); reveal_strlit("WorkspaceSymbolRequest"); }
            lemma_prefix_conflict("CallHierarchyIncomingCall"@, "WorkspaceSymbolRequest"@, name, 0);
    }
    if "CallHierarchyItem"@.is_prefix_of(name) {
            assert("CallHierarchyItem"@[1] != "CodeActionRequest"@[1] && 1 < "CallHierarchyItem"@.len() && 1 < "CodeActionRequest"@.len()) by { reveal_strlit("CallHierarchyItem"); reveal_strlit("CodeActionRequest"); }
            lemma_prefix_conflict("CallHierarchyItem"@, "CodeActionRequest"@, name, 1);
            assert("CallHierarchyItem"@[1] != "CodeLensRequest"@[1] && 1 < "CallHierarchyItem"@.len() && 1 < "CodeLensRequest"@.len()) by { reveal_strlit("CallHierarchyItem"); reveal_strlit("CodeLensRequest"); }
            lemma_prefix_conflict("CallHierarchyItem"@, "CodeLensRequest"@, name, 1);
            assert("CallHierarchyItem"@[1] != "CodeLensResolveRequest"@[1] && 1 < "CallHierarchyItem"@.len() && 1 < "CodeLensResolveRequest"@.len()) by { reveal_strlit("CallHierarchyItem"); reveal_strlit("CodeLensResolveRequest"); }
            lemma_prefix_conflict("CallHierarchyItem"@, "CodeLensResolveRequest"@, name, 1);
            assert("CallHierarchyItem"@[1] != "ColorPresentationRequest"@[1] && 1 < "CallHierarchyItem"@.len() && 1 < "ColorPresentationRequest"@.len()) by { reveal_strlit("CallHierarchyItem"); reveal_strlit("ColorPresentationRequest"); }
            lemma_prefix_conflict("CallHierarchyItem"@, "ColorPresentationRequest"@, name, 1);
            assert("CallHierarchyItem"@[1] != "CompletionRequest"@[1] && 1 < "CallHierarchyItem"@.len() && 1 < "CompletionRequest"@.len()) by { reveal_strlit("CallHierarchyItem"); reveal_strlit("CompletionRequest"); }
            lemma_prefix_conflict("CallHierarchyItem"@, "CompletionRequest"@, name, 1);
            assert("CallHierarchyItem"@[1] != "CompletionResolveRequest"@[1] && 1 < "CallHierarchyItem"@.len() && 1 < "CompletionResolveRequest"@.len()) by { reveal_strlit("CallHierarchyItem"); reveal_strlit("CompletionResolveRequest"); }
            lemma_prefix_conflict("CallHierarchyItem"@, "CompletionResolveRequest"@, name, 1);
            assert("CallHierarchyItem"@[0] != "DefinitionRequest"@[0] && 0 < "CallHierarchyItem"@.len() && 0 < "DefinitionRequest"@.len()) by { reveal_strlit("CallHierarchyItem"); reveal_strlit("DefinitionRequest"); }
            lemma_prefix_conflict("CallHierarchyItem"@, "DefinitionRequest"@, name, 0);
            assert("CallHierarchyItem"@[0] != "DocumentColorRequest"@[0] && 0 < "CallHierarchyItem"@.len() && 0 < "DocumentColorRequest"@.len()) by { reveal_strlit("CallHierarchyItem"); reveal_strlit("DocumentColorRequest"); }
            lemma_prefix_conflict("CallHierarchyItem"@, "DocumentColorRequest"@, name, 0);
            assert("CallHierarchyItem"@[0] != "DocumentFormattingRequest"@[0] && 0 < "CallHierarchyItem"@.len() && 0 < "DocumentFormattingRequest"@.len()) by { reveal_strlit("CallHierarchyItem"); reveal_strlit("DocumentFormattingRequest"); }
            lemma_prefix_conflict("CallHierarchyItem"@, "DocumentFormattingRequest"@, name, 0);
            assert("CallHierarchyItem"@[0] != "DocumentHighlightRequest"@[0] && 0 < "CallHierarchyItem"@.len() && 0 < "DocumentHighlightRequest"@.len()) by { reveal_strlit("CallHierarchyItem"); reveal_strlit("DocumentHighlightRequest"); }
            lemma_prefix_conflict("CallHierarchyItem"@, "DocumentHighlightRequest"@, name, 0);
            assert("CallHierarchyItem"@[0] != "DocumentLinkRequest"@[0] && 0 < "CallHierarchyItem"@.len() && 0 < "DocumentLinkRequest"@.len()) by { reveal_strlit("CallHierarchyItem"); reveal_strlit("DocumentLinkRequest"); }
            lemma_prefix_conflict("CallHierarchyItem"@, "DocumentLinkRequest"@, name, 0);
            assert("CallHierarchyItem"@[0] != "DocumentOnTypeFormattingRequest"@[0] && 0 < "CallHierarchyItem"@.len() && 0 < "DocumentOnTypeFormattingRequest"@.len()) by { reveal_strlit("CallHierarchyItem"); reveal_strlit("DocumentOnTypeFormattingRequest"); }
            lemma_prefix_conflict("CallHierarchyItem"@, "DocumentOnTypeFormattingRequest"@, name, 0);
            assert("CallHierarchyItem"@[0] != "DocumentRangeFormattingRequest"@[0] && 0 < "CallHierarchyItem"@.len() && 0 < "DocumentRangeFormattingRequest"@.len()) by { reveal_strlit("CallHierarchyItem"); reveal_strlit("DocumentRangeFormattingRequest"); }
            lemma_prefix_conflict("CallHierarchyItem"@, "DocumentRangeFormattingRequest"@, name, 0);
            assert("CallHierarchyItem"@[0] != "DocumentRangesFormattingRequest"@[0] && 0 < "CallHierarchyItem"@.len() && 0 < "DocumentRangesFormattingRequest"@.len()) by { reveal_strlit("CallHierarchyItem"); reveal_strlit("DocumentRangesFormattingRequest"); }
            lemma_prefix_conflict("CallHierarchyItem"@, "DocumentRangesFormattingRequest"@, name, 0);
            assert("CallHierarchyItem"@[0] != "DocumentSymbolRequest"@[0] && 0 < "CallHierarchyItem"@.len() && 0 < "DocumentSymbolRequest"@.len()) by { reveal_strlit("CallHierarchyItem"); reveal_strlit("DocumentSymbolRequest"); }
            lemma_prefix_conflict("CallHierarchyItem"@, "DocumentSymbolRequest"@, name, 0);
            assert("CallHierarchyItem"@[0] != "ExecuteCommandRequest"@[0] && 0 < "CallHierarchyItem"@.len() && 0 < "ExecuteCommandRequest"@.len()) by { reveal_strlit("CallHierarchyItem"); reveal_strlit("ExecuteCommandRequest"); }
            lemma_prefix_conflict("CallHierarchyItem"@, "ExecuteCommandRequest"@, name, 0);
            assert("CallHierarchyItem"@[0] != "FoldingRangeList"@[0] && 0 < "CallHierarchyItem"@.len() && 0 < "FoldingRangeList"@.len()) by { reveal_strlit("CallHierarchyItem"); reveal_strlit("FoldingRangeList"); }
            lemma_prefix_conflict("CallHierarchyItem"@, "FoldingRangeList"@, name, 0);
            assert("CallHierarchyItem"@[0] != "FoldingRangeRequest"@[0] && 0 < "CallHierarchyItem"@.len() && 0 < "FoldingRangeRequest"@.len()) by { reveal_strlit("CallHierarchyItem"); reveal_strlit("FoldingRangeRequest"); }
            lemma_prefix_conflict("CallHierarchyItem"@, "FoldingRangeRequest"@, name, 0);
            assert("CallHierarchyItem"@[0] != "HoverRequest"@[0] && 0 < "CallHierarchyItem"@.len() && 0 < "HoverRequest"@.len()) by { reveal_strlit("CallHierarchyItem"); reveal_strlit("HoverRequest"); }
            lemma_prefix_conflict("CallHierarchyItem"@, "HoverRequest"@, name, 0);
            assert("CallHierarchyItem"@[0] != "InlayHintsParams"@[0] && 0 < "CallHierarchyItem"@.len() && 0 < "InlayHintsParams"@.len()) by { reveal_strlit("CallHierarchyItem"); reveal_strlit("InlayHintsParams"); }
            lemma_prefix_conflict("CallHierarchyItem"@, "InlayHintsParams"@, name, 0);
            assert("CallHierarchyItem"@[0] != "InlineCompletion"@[0] && 0 < "CallHierarchyItem"@.len() && 0 < "InlineCompletion"@.len()) by { reveal_strlit("CallHierarchyItem"); reveal_strlit("InlineCompletion"); }
            lemma_prefix_conflict("CallHierarchyItem"@, "InlineCompletion"@, name, 0);
            assert("CallHierarchyItem"@[0] != "ReferencesRequest"@[0] && 0 < "CallHierarchyItem"@.len() && 0 < "ReferencesRequest"@.len()) by { reveal_strlit("CallHierarchyItem"); reveal_strlit("ReferencesRequest"); }
            lemma_prefix_conflict("CallHierarchyItem"@, "ReferencesRequest"@, name, 0);
            assert("CallHierarchyItem"@[0] != "RenameRequest"@[0] && 0 < "CallHierarchyItem"@.len() && 0 < "RenameRequest"@.len()) by { reveal_strlit("CallHierarchyItem"); reveal_strlit("RenameRequest"); }
            lemma_prefix_conflict("CallHierarchyItem"@, "RenameRequest"@, name, 0);
            assert("CallHierarchyItem"@[0] != "ResponseError"@[0] && 0 < "CallHierarchyItem"@.len() && 0 < "ResponseError"@.len()) by { reveal_strlit("CallHierarchyItem"); reveal_strlit("ResponseError"); }
            lemma_prefix_conflict("CallHierarchyItem"@, "ResponseError"@, name, 0);
            assert("CallHierarchyItem"@[0] != "SignatureHelpRequest"@[0] && 0 < "CallHierarchyItem"@.len() && 0 < "SignatureHelpRequest"@.len()) by { reveal_strlit("CallHierarchyItem"); reveal_strlit("SignatureHelpRequest"); }
            lemma_prefix_conflict("CallHierarchyItem"@, "SignatureHelpRequest"@, name, 0);
            assert("CallHierarchyItem"@[0] != "TextDocumentPosition"@[0] && 0 < "CallHierarchyItem"@.len() && 0 < "TextDocumentPosition"@.len()) by { reveal_strlit("CallHierarchyItem"); reveal_strlit("TextDocumentPosition"); }
            lemma_prefix_conflict("CallHierarchyItem"@, "TextDocumentPosition"@, name, 0);
            assert("CallHierarchyItem"@[0] != "WorkspaceSymbolRequest"@[0] && 0 < "CallHierarchyItem"@.len() && 0 < "WorkspaceSymbolRequest"@.len()) by { reveal_strlit("CallHierarchyItem"); reveal_strlit("WorkspaceSymbolRequest"); }
            lemma_prefix_conflict("CallHierarchyItem"@, "WorkspaceSymbolRequest"@, name, 0);
            assert("CallHierarchyItem"@[14] != "CallHierarchyIncomingCall"@[14] && 14 < "CallHierarchyItem"@.len() && 14 < "CallHierarchyIncomingCall"@.len()) by { reveal_strlit("CallHierarchyItem"); reveal_strlit("CallHierarchyIncomingCall"); }
            lemma_prefix_conflict("CallHierarchyItem"@, "CallHierarchyIncomingCall"@, name, 14);
    }
    if "CallHierarchyItemProvider"@.is_prefix_of(name) {
            assert("CallHierarchyItemProvider"@[1] != "CodeActionRequest"@[1] && 1 < "CallHierarchyItemProvider"@.len() && 1 < "CodeActionRequest"@.len()) by { reveal_strlit("CallHierarchyItemProvider"); reveal_strlit("CodeActionRequest"); }
            lemma_prefix_conflict("CallHierarchyItemProvider"@, "CodeActionRequest"@, name, 1);
            assert("CallHierarchyItemProvider"@[1] != "CodeLensRequest"@[1] && 1 < "CallHierarchyItemProvider"@.len() && 1 < "CodeLensRequest"@.len()) by { reveal_strlit("CallHierarchyItemProvider"); reveal_strlit("CodeLensRequest"); }
            lemma_prefix_conflict("CallHierarchyItemProvider"@, "CodeLensRequest"@, name, 1);
            assert("CallHierarchyItemProvider"@[1] != "CodeLensResolveRequest"@[1] && 1 < "CallHierarchyItemProvider"@.len() && 1 < "CodeLensResolveRequest"@.len()) by { reveal_strlit("CallHierarchyItemProvider"); reveal_strlit("CodeLensResolveRequest"); }
            lemma_prefix_conflict("CallHierarchyItemProvider"@, "CodeLensResolveRequest"@, name, 1);
            assert("CallHierarchyItemProvider"@[1] != "ColorPresentationRequest"@[1] && 1 < "CallHierarchyItemProvider"@.len() && 1 < "ColorPresentationRequest"@.len()) by { reveal_strlit("CallHierarchyItemProvider"); reveal_strlit("ColorPresentationRequest"); }
            lemma_prefix_conflict("CallHierarchyItemProvider"@, "ColorPresentationRequest"@, name, 1);
            assert("CallHierarchyItemProvider"@[1] != "CompletionRequest"@[1] && 1 < "CallHierarchyItemProvider"@.len() && 1 < "CompletionRequest"@.len()) by { reveal_strlit("CallHierarchyItemProvider"); reveal_strlit("CompletionRequest"); }
            lemma_prefix_conflict("CallHierarchyItemProvider"@, "CompletionRequest"@, name, 1);
            assert("CallHierarchyItemProvider"@[1] != "CompletionResolveRequest"@[1] && 1 < "CallHierarchyItemProvider"@.len() && 1 < "CompletionResolveRequest"@.len()) by { reveal_strlit("CallHierarchyItemProvider"); reveal_strlit("CompletionResolveRequest"); }
            lemma_prefix_conflict("CallHierarchyItemProvider"@, "CompletionResolveRequest"@, name, 1);
            assert("CallHierarchyItemProvider"@[0] != "DefinitionRequest"@[0] && 0 < "CallHierarchyItemProvider"@.len() && 0 < "DefinitionRequest"@.len()) by { reveal_strlit("CallHierarchyItemProvider"); reveal_strlit("DefinitionRequest"); }
            lemma_prefix_conflict("CallHierarchyItemProvider"@, "DefinitionRequest"@, name, 0);
            assert("CallHierarchyItemProvider"@[0] != "DocumentColorRequest"@[0] && 0 < "CallHierarchyItemProvider"@.len() && 0 < "DocumentColorRequest"@.len()) by { reveal_strlit("CallHierarchyItemProvider"); reveal_strlit("DocumentColorRequest"); }
            lemma_prefix_conflict("CallHierarchyItemProvider"@, "DocumentColorRequest"@, name, 0);
            assert("CallHierarchyItemProvider"@[0] != "DocumentFormattingRequest"@[0] && 0 < "CallHierarchyItemProvider"@.len() && 0 < "DocumentFormattingRequest"@.len()) by { reveal_strlit("CallHierarchyItemProvider"); reveal_strlit("DocumentFormattingRequest"); }
            lemma_prefix_conflict("CallHierarchyItemProvider"@, "DocumentFormattingRequest"@, name, 0);
            assert("CallHierarchyItemProvider"@[0] != "DocumentHighlightRequest"@[0] && 0 < "CallHierarchyItemProvider"@.len() && 0 < "DocumentHighlightRequest"@.len()) by { reveal_strlit("CallHierarchyItemProvider"); reveal_strlit("DocumentHighlightRequest"); }
            lemma_prefix_conflict("CallHierarchyItemProvider"@, "DocumentHighlightRequest"@, name, 0);
            assert("CallHierarchyItemProvider"@[0] != "DocumentLinkRequest"@[0] && 0 < "CallHierarchyItemProvider"@.len() && 0 < "DocumentLinkRequest"@.len()) by { reveal_strlit("CallHierarchyItemProvider"); reveal_strlit("DocumentLinkRequest"); }
            lemma_prefix_conflict("CallHierarchyItemProvider"@, "DocumentLinkRequest"@, name, 0);
            assert("CallHierarchyItemProvider"@[0] != "DocumentOnTypeFormattingRequest"@[0] && 0 < "CallHierarchyItemProvider"@.len() && 0 < "DocumentOnTypeFormattingRequest"@.len()) by { reveal_strlit("CallHierarchyItemProvider"); reveal_strlit("DocumentOnTypeFormattingRequest"); }
            lemma_prefix_conflict("CallHierarchyItemProvider"@, "DocumentOnTypeFormattingRequest"@, name, 0);
            assert("CallHierarchyItemProvider"@[0] != "DocumentRangeFormattingRequest"@[0] && 0 < "CallHierarchyItemProvider"@.len() && 0 < "DocumentRangeFormattingRequest"@.len()) by { reveal_strlit("CallHierarchyItemProvider"); reveal_strlit("DocumentRangeFormattingRequest"); }
            lemma_prefix_conflict("CallHierarchyItemProvider"@, "DocumentRangeFormattingRequest"@, name, 0);
            assert("CallHierarchyItemProvider"@[0] != "DocumentRangesFormattingRequest"@[0] && 0 < "CallHierarchyItemProvider"@.len() && 0 < "DocumentRangesFormattingRequest"@.len()) by { reveal_strlit("CallHierarchyItemProvider"); reveal_strlit("DocumentRangesFormattingRequest"); }
            lemma_prefix_conflict("CallHierarchyItemProvider"@, "DocumentRangesFormattingRequest"@, name, 0);
            assert("CallHierarchyItemProvider"@[0] != "DocumentSymbolRequest"@[0] && 0 < "CallHierarchyItemProvider"@.len() && 0 < "DocumentSymbolRequest"@.len()) by { reveal_strlit("CallHierarchyItemProvider"); reveal_strlit("DocumentSymbolRequest"); }
            lemma_prefix_conflict("CallHierarchyItemProvider"@, "DocumentSymbolRequest"@, name, 0);
            assert("CallHierarchyItemProvider"@[0] != "ExecuteCommandRequest"@[0] && 0 < "CallHierarchyItemProvider"@.len() && 0 < "ExecuteCommandRequest"@.len()) by { reveal_strlit("CallHierarchyItemProvider"); reveal_strlit("ExecuteCommandRequest"); }
            lemma_prefix_conflict("CallHierarchyItemProvider"@, "ExecuteCommandRequest"@, name, 0);
            assert("CallHierarchyItemProvider"@[0] != "FoldingRangeList"@[0] && 0 < "CallHierarchyItemProvider"@.len() && 0 < "FoldingRangeList"@.len()) by { reveal_strlit("CallHierarchyItemProvider"); reveal_strlit("FoldingRangeList"); }
            lemma_prefix_conflict("CallHierarchyItemProvider"@, "FoldingRangeList"@, name, 0);
            assert("CallHierarchyItemProvider"@[0] != "FoldingRangeRequest"@[0] && 0 < "CallHierarchyItemProvider"@.len() && 0 < "FoldingRangeRequest"@.len()) by { reveal_strlit("CallHierarchyItemProvider"); reveal_strlit("FoldingRangeRequest"); }
            lemma_prefix_conflict("CallHierarchyItemProvider"@, "FoldingRangeRequest"@, name, 0);
            assert("CallHierarchyItemProvider"@[0] != "HoverRequest"@[0] && 0 < "CallHierarchyItemProvider"@.len() && 0 < "HoverRequest"@.len()) by { reveal_strlit("CallHierarchyItemProvider"); reveal_strlit("HoverRequest"); }
            lemma_prefix_conflict("CallHierarchyItemProvider"@, "HoverRequest"@, name, 0);
            assert("CallHierarchyItemProvider"@[0] != "InlayHintsParams"@[0] && 0 < "CallHierarchyItemProvider"@.len() && 0 < "InlayHintsParams"@.len()) by { reveal_strlit("CallHierarchyItemProvider"); reveal_strlit("InlayHintsParams"); }
            lemma_prefix_conflict("CallHierarchyItemProvider"@, "InlayHintsParams"@, name, 0);
            assert("CallHierarchyItemProvider"@[0] != "InlineCompletion"@[0] && 0 < "CallHierarchyItemProvider"@.len() && 0 < "InlineCompletion"@.len()) by { reveal_strlit("CallHierarchyItemProvider"); reveal_strlit("InlineCompletion"); }
            lemma_prefix_conflict("CallHierarchyItemProvider"@, "InlineCompletion"@, name, 0);
            assert("CallHierarchyItemProvider"@[0] != "ReferencesRequest"@[0] && 0 < "CallHierarchyItemProvider"@.len() && 0 < "ReferencesRequest"@.len()) by { reveal_strlit("CallHierarchyItemProvider"); reveal_strlit("ReferencesRequest"); }
            lemma_prefix_conflict("CallHierarchyItemProvider"@, "ReferencesRequest"@, name, 0);
            assert("CallHierarchyItemProvider"@[0] != "RenameRequest"@[0] && 0 < "CallHierarchyItemProvider"@.len() && 0 < "RenameRequest"@.len()) by { reveal_strlit("CallHierarchyItemProvider"); reveal_strlit("RenameRequest"); }
            lemma_prefix_conflict("CallHierarchyItemProvider"@, "RenameRequest"@, name, 0);
            assert("CallHierarchyItemProvider"@[0] != "ResponseError"@[0] && 0 < "CallHierarchyItemProvider"@.len() && 0 < "ResponseError"@.len()) by { reveal_strlit("CallHierarchyItemProvider"); reveal_strlit("ResponseError"); }
            lemma_prefix_conflict("CallHierarchyItemProvider"@, "ResponseError"@, name, 0);
            assert("CallHierarchyItemProvider"@[0] != "SignatureHelpRequest"@[0] && 0 < "CallHierarchyItemProvider"@.len() && 0 < "SignatureHelpRequest"@.len()) by { reveal_strlit("CallHierarchyItemProvider"); reveal_strlit("SignatureHelpRequest"); }
            lemma_prefix_conflict("CallHierarchyItemProvider"@, "SignatureHelpRequest"@, name, 0);
            assert("CallHierarchyItemProvider"@[0] != "TextDocumentPosition"@[0] && 0 < "CallHierarchyItemProvider"@.len() && 0 < "TextDocumentPosition"@.len()) by { reveal_strlit("CallHierarchyItemProvider"); reveal_strlit("TextDocumentPosition"); }
            lemma_prefix_conflict("CallHierarchyItemProvider"@, "TextDocumentPosition"@, name, 0);
            assert("CallHierarchyItemProvider"@[0] != "WorkspaceSymbolRequest"@[0] && 0 < "CallHierarchyItemProvider"@.len() && 0 < "WorkspaceSymbolRequest"@.len()) by { reveal_strlit("CallHierarchyItemProvider"); reveal_strlit("WorkspaceSymbolRequest"); }
            lemma_prefix_conflict("CallHierarchyItemProvider"@, "WorkspaceSymbolRequest"@, name, 0);
            assert("CallHierarchyItemProvider"@[14] != "CallHierarchyIncomingCall"@[14] && 14 < "CallHierarchyItemProvider"@.len() && 14 < "CallHierarchyIncomingCall"@.len()) by { reveal_strlit("CallHierarchyItemProvider"); reveal_strlit("CallHierarchyIncomingCall"); }
            lemma_prefix_conflict("CallHierarchyItemProvider"@, "CallHierarchyIncomingCall"@, name, 14);
            assert("CallHierarchyItem"@.is_prefix_of("CallHierarchyItemProvider"@)) by { reveal_strlit("CallHierarchyItemProvider"); reveal_strlit("CallHierarchyItem"); }
            lemma_prefix_trans("CallHierarchyItem"@, "CallHierarchyItemProvider"@, name);
    }
    if "CallHierarchyOutgoingCall"@.is_prefix_of(name) {
            assert("CallHierarchyOutgoingCall"@[1] != "CodeActionRequest"@[1] && 1 < "CallHierarchyOutgoingCall"@.len() && 1 < "CodeActionRequest"@.len()) by { reveal_strlit("CallHierarchyOutgoingCall"); reveal_strlit("CodeActionRequest"); }
            lemma_prefix_conflict("CallHierarchyOutgoingCall"@, "CodeActionRequest"@, name, 1);
            assert("CallHierarchyOutgoingCall"@[1] != "CodeLensRequest"@[1] && 1 < "CallHierarchyOutgoingCall"@.len() && 1 < "CodeLensRequest"@.len()) by { reveal_strlit("CallHierarchyOutgoingCall"); reveal_strlit("CodeLensRequest"); }
            lemma_prefix_conflict("CallHierarchyOutgoingCall"@, "CodeLensRequest"@, name, 1);
            assert("CallHierarchyOutgoingCall"@[1] != "CodeLensResolveRequest"@[1] && 1 < "CallHierarchyOutgoingCall"@.len() && 1 < "CodeLensResolveRequest"@.len()) by { reveal_strlit("CallHierarchyOutgoingCall"); reveal_strlit("CodeLensResolveRequest"); }
            lemma_prefix_conflict("CallHierarchyOutgoingCall"@, "CodeLensResolveRequest"@, name, 1);
            assert("CallHierarchyOutgoingCall"@[1] != "ColorPresentationRequest"@[1] && 1 < "CallHierarchyOutgoingCall"@.len() && 1 < "ColorPresentationRequest"@.len()) by { reveal_strlit("CallHierarchyOutgoingCall"); reveal_strlit("ColorPresentationRequest"); }
            lemma_prefix_conflict("CallHierarchyOutgoingCall"@, "ColorPresentationRequest"@, name, 1);
            assert("CallHierarchyOutgoingCall"@[1] != "CompletionRequest"@[1] && 1 < "CallHierarchyOutgoingCall"@.len() && 1 < "CompletionRequest"@.len()) by { reveal_strlit("CallHierarchyOutgoingCall"); reveal_strlit("CompletionRequest"); }
            lemma_prefix_conflict("CallHierarchyOutgoingCall"@, "CompletionRequest"@, name, 1);
            assert("CallHierarchyOutgoingCall"@[1] != "CompletionResolveRequest"@[1] && 1 < "CallHierarchyOutgoingCall"@.len() && 1 < "CompletionResolveRequest"@.len()) by { reveal_strlit("CallHierarchyOutgoingCall"); reveal_strlit("CompletionResolveRequest"); }
            lemma_prefix_conflict("CallHierarchyOutgoingCall"@, "CompletionResolveRequest"@, name, 1);
            assert("CallHierarchyOutgoingCall"@[0] != "DefinitionRequest"@[0] && 0 < "CallHierarchyOutgoingCall"@.len() && 0 < "DefinitionRequest"@.len()) by { reveal_strlit("CallHierarchyOutgoingCall"); reveal_strlit("DefinitionRequest"); }
            lemma_prefix_conflict("CallHierarchyOutgoingCall"@, "DefinitionRequest"@, name, 0);
            assert("CallHierarchyOutgoingCall"@[0] != "DocumentColorRequest"@[0] && 0 < "CallHierarchyOutgoingCall"@.len() && 0 < "DocumentColorRequest"@.len()) by { reveal_strlit("CallHierarchyOutgoingCall"); reveal_strlit("DocumentColorRequest"); }
            lemma_prefix_conflict("CallHierarchyOutgoingCall"@, "DocumentColorRequest"@, name, 0);
            assert("CallHierarchyOutgoingCall"@[0] != "DocumentFormattingRequest"@[0] && 0 < "CallHierarchyOutgoingCall"@.len() && 0 < "DocumentFormattingRequest"@.len()) by { reveal_strlit("CallHierarchyOutgoingCall"); reveal_strlit("DocumentFormattingRequest"); }
            lemma_prefix_conflict("CallHierarchyOutgoingCall"@, "DocumentFormattingRequest"@, name, 0);
            assert("CallHierarchyOutgoingCall"@[0] != "DocumentHighlightRequest"@[0] && 0 < "CallHierarchyOutgoingCall"@.len() && 0 < "DocumentHighlightRequest"@.len()) by { reveal_strlit("CallHierarchyOutgoingCall"); reveal_strlit("DocumentHighlightRequest"); }
            lemma_prefix_conflict("CallHierarchyOutgoingCall"@, "DocumentHighlightRequest"@, name, 0);
            assert("CallHierarchyOutgoingCall"@[0] != "DocumentLinkRequest"@[0] && 0 < "CallHierarchyOutgoingCall"@.len() && 0 < "DocumentLinkRequest"@.len()) by { reveal_strlit("CallHierarchyOutgoingCall"); reveal_strlit("DocumentLinkRequest"); }
            lemma_prefix_conflict("CallHierarchyOutgoingCall"@, "DocumentLinkRequest"@, name, 0);
            assert("CallHierarchyOutgoingCall"@[0] != "DocumentOnTypeFormattingRequest"@[0] && 0 < "CallHierarchyOutgoingCall"@.len() && 0 < "DocumentOnTypeFormattingRequest"@.len()) by { reveal_strlit("CallHierarchyOutgoingCall"); reveal_strlit("DocumentOnTypeFormattingRequest"); }
            lemma_prefix_conflict("CallHierarchyOutgoingCall"@, "DocumentOnTypeFormattingRequest"@, name, 0);
            assert("CallHierarchyOutgoingCall"@[0] != "DocumentRangeFormattingRequest"@[0] && 0 < "CallHierarchyOutgoingCall"@.len() && 0 < "DocumentRangeFormattingRequest"@.len()) by { reveal_strlit("CallHierarchyOutgoingCall"); reveal_strlit("DocumentRangeFormattingRequest"); }
            lemma_prefix_conflict("CallHierarchyOutgoingCall"@, "DocumentRangeFormattingRequest"@, name, 0);
            assert("CallHierarchyOutgoingCall"@[0] != "DocumentRangesFormattingRequest"@[0] && 0 < "CallHierarchyOutgoingCall"@.len() && 0 < "DocumentRangesFormattingRequest"@.len()) by { reveal_strlit("CallHierarchyOutgoingCall"); reveal_strlit("DocumentRangesFormattingRequest"); }
            lemma_prefix_conflict("CallHierarchyOutgoingCall"@, "DocumentRangesFormattingRequest"@, name, 0);
            assert("CallHierarchyOutgoingCall"@[0] != "DocumentSymbolRequest"@[0] && 0 < "CallHierarchyOutgoingCall"@.len() && 0 < "DocumentSymbolRequest"@.len()) by { reveal_strlit("CallHierarchyOutgoingCall"); reveal_strlit("DocumentSymbolRequest"); }
            lemma_prefix_conflict("CallHierarchyOutgoingCall"@, "DocumentSymbolRequest"@, name, 0);
            assert("CallHierarchyOutgoingCall"@[0] != "ExecuteCommandRequest"@[0] && 0 < "CallHierarchyOutgoingCall"@.len() && 0 < "ExecuteCommandRequest"@.len()) by { reveal_strlit("CallHierarchyOutgoingCall"); reveal_strlit("ExecuteCommandRequest"); }
            lemma_prefix_conflict("CallHierarchyOutgoingCall"@, "ExecuteCommandRequest"@, name, 0);
            assert("CallHierarchyOutgoingCall"@[0] != "FoldingRangeList"@[0] && 0 < "CallHierarchyOutgoingCall"@.len() && 0 < "FoldingRangeList"@.len()) by { reveal_strlit("CallHierarchyOutgoingCall"); reveal_strlit("FoldingRangeList"); }
            lemma_prefix_conflict("CallHierarchyOutgoingCall"@, "FoldingRangeList"@, name, 0);
            assert("CallHierarchyOutgoingCall"@[0] != "FoldingRangeRequest"@[0] && 0 < "CallHierarchyOutgoingCall"@.len() && 0 < "FoldingRangeRequest"@.len()) by { reveal_strlit("CallHierarchyOutgoingCall"); reveal_strlit("FoldingRangeRequest"); }
            lemma_prefix_conflict("CallHierarchyOutgoingCall"@, "FoldingRangeRequest"@, name, 0);
            assert("CallHierarchyOutgoingCall"@[0] != "HoverRequest"@[0] && 0 < "CallHierarchyOutgoingCall"@.len() && 0 < "HoverRequest"@.len()) by { reveal_strlit("CallHierarchyOutgoingCall"); reveal_strlit("HoverRequest"); }
            lemma_prefix_conflict("CallHierarchyOutgoingCall"@, "HoverRequest"@, name, 0);
            assert("CallHierarchyOutgoingCall"@[0] != "InlayHintsParams"@[0] && 0 < "CallHierarchyOutgoingCall"@.len() && 0 < "InlayHintsParams"@.len()) by { reveal_strlit("CallHierarchyOutgoingCall"); reveal_strlit("InlayHintsParams"); }
            lemma_prefix_conflict("CallHierarchyOutgoingCall"@, "InlayHintsParams"@, name, 0);
            assert("CallHierarchyOutgoingCall"@[0] != "InlineCompletion"@[0] && 0 < "CallHierarchyOutgoingCall"@.len() && 0 < "InlineCompletion"@.len()) by { reveal_strlit("CallHierarchyOutgoingCall"); reveal_strlit("InlineCompletion"); }
            lemma_prefix_conflict("CallHierarchyOutgoingCall"@, "InlineCompletion"@, name, 0);
            assert("CallHierarchyOutgoingCall"@[0] != "ReferencesRequest"@[0] && 0 < "CallHierarchyOutgoingCall"@.len() && 0 < "ReferencesRequest"@.len()) by { reveal_strlit("CallHierarchyOutgoingCall"); reveal_strlit("ReferencesRequest"); }
            lemma_prefix_conflict("CallHierarchyOutgoingCall"@, "ReferencesRequest"@, name, 0);
            assert("CallHierarchyOutgoingCall"@[0] != "RenameRequest"@[0] && 0 < "CallHierarchyOutgoingCall"@.len() && 0 < "RenameRequest"@.len()) by { reveal_strlit("CallHierarchyOutgoingCall"); reveal_strlit("RenameRequest"); }
            lemma_prefix_conflict("CallHierarchyOutgoingCall"@, "RenameRequest"@, name, 0);
            assert("CallHierarchyOutgoingCall"@[0] != "ResponseError"@[0] && 0 < "CallHierarchyOutgoingCall"@.len() && 0 < "ResponseError"@.len()) by { reveal_strlit("CallHierarchyOutgoingCall"); reveal_strlit("ResponseError"); }
            lemma_prefix_conflict("CallHierarchyOutgoingCall"@, "ResponseError"@, name, 0);
            assert("CallHierarchyOutgoingCall"@[0] != "SignatureHelpRequest"@[0] && 0 < "CallHierarchyOutgoingCall"@.len() && 0 < "SignatureHelpRequest"@.len()) by { reveal_strlit("CallHierarchyOutgoingCall"); reveal_strlit("SignatureHelpRequest"); }
            lemma_prefix_conflict("CallHierarchyOutgoingCall"@, "SignatureHelpRequest"@, name, 0);
            assert("CallHierarchyOutgoingCall"@[0] != "TextDocumentPosition"@[0] && 0 < "CallHierarchyOutgoingCall"@.len() && 0 < "TextDocumentPosition"@.len()) by { reveal_strlit("CallHierarchyOutgoingCall"); reveal_strlit("TextDocumentPosition"); }
            lemma_prefix_conflict("CallHierarchyOutgoingCall"@, "TextDocumentPosition"@, name, 0);
            assert("CallHierarchyOutgoingCall"@[0] != "WorkspaceSymbolRequest"@[0] && 0 < "CallHierarchyOutgoingCall"@.len() && 0 < "WorkspaceSymbolRequest"@.len()) by { reveal_strlit("CallHierarchyOutgoingCall"); reveal_strlit("WorkspaceSymbolRequest"); }
            lemma_prefix_conflict("CallHierarchyOutgoingCall"@, "WorkspaceSymbolRequest"@, name, 0);
            assert("CallHierarchyOutgoingCall"@[13] != "CallHierarchyIncomingCall"@[13] && 13 < "CallHierarchyOutgoingCall"@.len() && 13 < "CallHierarchyIncomingCall"@.len()) by { reveal_strlit("CallHierarchyOutgoingCall"); reveal_strlit("CallHierarchyIncomingCall"); }
            lemma_prefix_conflict("CallHierarchyOutgoingCall"@, "CallHierarchyIncomingCall"@, name, 13);
            assert("CallHierarchyOutgoingCall"@[13] != "CallHierarchyItem"@[13] && 13 < "CallHierarchyOutgoingCall"@.len() && 13 < "CallHierarchyItem"@.len()) by { reveal_strlit("CallHierarchyOutgoingCall"); reveal_strlit("CallHierarchyItem"); }
            lemma_prefix_conflict("CallHierarchyOutgoingCall"@, "CallHierarchyItem"@, name, 13);
            assert("CallHierarchyOutgoingCall"@[13] != "CallHierarchyItemProvider"@[13] && 13 < "CallHierarchyOutgoingCall"@.len() && 13 < "CallHierarchyItemProvider"@.len()) by { reveal_strlit("CallHierarchyOutgoingCall"); reveal_strlit("CallHierarchyItemProvider"); }
            lemma_prefix_conflict("CallHierarchyOutgoingCall"@, "CallHierarchyItemProvider"@, name, 13);
    }
    if "CodeActionProvider"@.is_prefix_of(name) {
            assert("CodeActionProvider"@[10] != "CodeActionRequest"@[10] && 10 < "CodeActionProvider"@.len() && 10 < "CodeActionRequest"@.len()) by { reveal_strlit("CodeActionProvider"); reveal_strlit("CodeActionRequest"); }
            lemma_prefix_conflict("CodeActionProvider"@, "CodeActionRequest"@, name, 10);
            assert("CodeActionProvider"@[4] != "CodeLensRequest"@[4] && 4 < "CodeActionProvider"@.len() && 4 < "CodeLensRequest"@.len()) by { reveal_strlit("CodeActionProvider"); reveal_strlit("CodeLensRequest"); }
            lemma_prefix_conflict("CodeActionProvider"@, "CodeLensRequest"@, name, 4);
            assert("CodeActionProvider"@[4] != "CodeLensResolveRequest"@[4] && 4 < "CodeActionProvider"@.len() && 4 < "CodeLensResolveRequest"@.len()) by { reveal_strlit("CodeActionProvider"); reveal_strlit("CodeLensResolveRequest"); }
            lemma_prefix_conflict("CodeActionProvider"@, "CodeLensResolveRequest"@, name, 4);
            assert("CodeActionProvider"@[2] != "ColorPresentationRequest"@[2] && 2 < "CodeActionProvider"@.len() && 2 < "ColorPresentationRequest"@.len()) by { reveal_strlit("CodeActionProvider"); reveal_strlit("ColorPresentationRequest"); }
            lemma_prefix_conflict("CodeActionProvider"@, "ColorPresentationRequest"@, name, 2);
            assert("CodeActionProvider"@[2] != "CompletionRequest"@[2] && 2 < "CodeActionProvider"@.len() && 2 < "CompletionRequest"@.len()) by { reveal_strlit("CodeActionProvider"); reveal_strlit("CompletionRequest"); }
            lemma_prefix_conflict("CodeActionProvider"@, "CompletionRequest"@, name, 2);
            assert("CodeActionProvider"@[2] != "CompletionResolveRequest"@[2] && 2 < "CodeActionProvider"@.len() && 2 < "CompletionResolveRequest"@.len()) by { reveal_strlit("CodeActionProvider"); reveal_strlit("CompletionResolveRequest"); }
            lemma_prefix_conflict("CodeActionProvider"@, "CompletionResolveRequest"@, name, 2);
            assert("CodeActionProvider"@[0] != "DefinitionRequest"@[0] && 0 < "CodeActionProvider"@.len() && 0 < "DefinitionRequest"@.len()) by { reveal_strlit("CodeActionProvider"); reveal_strlit("DefinitionRequest"); }
            lemma_prefix_conflict("CodeActionProvider"@, "DefinitionRequest"@, name, 0);
            assert("CodeActionProvider"@[0] != "DocumentColorRequest"@[0] && 0 < "CodeActionProvider"@.len() && 0 < "DocumentColorRequest"@.len()) by { reveal_strlit("CodeActionProvider"); reveal_strlit("DocumentColorRequest"); }
            lemma_prefix_conflict("CodeActionProvider"@, "DocumentColorRequest"@, name, 0);
            assert("CodeActionProvider"@[0] != "DocumentFormattingRequest"@[0] && 0 < "CodeActionProvider"@.len() && 0 < "DocumentFormattingRequest"@.len()) by { reveal_strlit("CodeActionProvider"); reveal_strlit("DocumentFormattingRequest"); }
            lemma_prefix_conflict("CodeActionProvider"@, "DocumentFormattingRequest"@, name, 0);
            assert("CodeActionProvider"@[0] != "DocumentHighlightRequest"@[0] && 0 < "CodeActionProvider"@.len() && 0 < "DocumentHighlightRequest"@.len()) by { reveal_strlit("CodeActionProvider"); reveal_strlit("DocumentHighlightRequest"); }
            lemma_prefix_conflict("CodeActionProvider"@, "DocumentHighlightRequest"@, name, 0);
            assert("CodeActionProvider"@[0] != "DocumentLinkRequest"@[0] && 0 < "CodeActionProvider"@.len() && 0 < "DocumentLinkRequest"@.len()) by { reveal_strlit("CodeActionProvider"); reveal_strlit("DocumentLinkRequest"); }
            lemma_prefix_conflict("CodeActionProvider"@, "DocumentLinkRequest"@, name, 0);
            assert("CodeActionProvider"@[0] != "DocumentOnTypeFormattingRequest"@[0] && 0 < "CodeActionProvider"@.len() && 0 < "DocumentOnTypeFormattingRequest"@.len()) by { reveal_strlit("CodeActionProvider"); reveal_strlit("DocumentOnTypeFormattingRequest"); }
            lemma_prefix_conflict("CodeActionProvider"@, "DocumentOnTypeFormattingRequest"@, name, 0);
            assert("CodeActionProvider"@[0] != "DocumentRangeFormattingRequest"@[0] && 0 < "CodeActionProvider"@.len() && 0 < "DocumentRangeFormattingRequest"@.len()) by { reveal_strlit("CodeActionProvider"); reveal_strlit("DocumentRangeFormattingRequest"); }
            lemma_prefix_conflict("CodeActionProvider"@, "DocumentRangeFormattingRequest"@, name, 0);
            assert("CodeActionProvider"@[0] != "DocumentRangesFormattingRequest"@[0] && 0 < "CodeActionProvider"@.len() && 0 < "DocumentRangesFormattingRequest"@.len()) by { reveal_strlit("CodeActionProvider"); reveal_strlit("DocumentRangesFormattingRequest"); }
            lemma_prefix_conflict("CodeActionProvider"@, "DocumentRangesFormattingRequest"@, name, 0);
            assert("CodeActionProvider"@[0] != "DocumentSymbolRequest"@[0] && 0 < "CodeActionProvider"@.len() && 0 < "DocumentSymbolRequest"@.len()) by { reveal_strlit("CodeActionProvider"); reveal_strlit("DocumentSymbolRequest"); }
            lemma_prefix_conflict("CodeActionProvider"@, "DocumentSymbolRequest"@, name, 0);
            assert("CodeActionProvider"@[0] != "ExecuteCommandRequest"@[0] && 0 < "CodeActionProvider"@.len() && 0 < "ExecuteCommandRequest"@.len()) by { reveal_strlit("CodeActionProvider"); reveal_strlit("ExecuteCommandRequest"); }
            lemma_prefix_conflict("CodeActionProvider"@, "ExecuteCommandRequest"@, name, 0);
            assert("CodeActionProvider"@[0] != "FoldingRangeList"@[0] && 0 < "CodeActionProvider"@.len() && 0 < "FoldingRangeList"@.len()) by { reveal_strlit("CodeActionProvider"); reveal_strlit("FoldingRangeList"); }
            lemma_prefix_conflict("CodeActionProvider"@, "FoldingRangeList"@, name, 0);
            assert("CodeActionProvider"@[0] != "FoldingRangeRequest"@[0] && 0 < "CodeActionProvider"@.len() && 0 < "FoldingRangeRequest"@.len()) by { reveal_strlit("CodeActionProvider"); reveal_strlit("FoldingRangeRequest"); }
            lemma_prefix_conflict("CodeActionProvider"@, "FoldingRangeRequest"@, name, 0);
            assert("CodeActionProvider"@[0] != "HoverRequest"@[0] && 0 < "CodeActionProvider"@.len() && 0 < "HoverRequest"@.len()) by { reveal_strlit("CodeActionProvider"); reveal_strlit("HoverRequest"); }
            lemma_prefix_conflict("CodeActionProvider"@, "HoverRequest"@, name, 0);
            assert("CodeActionProvider"@[0] != "InlayHintsParams"@[0] && 0 < "CodeActionProvider"@.len() && 0 < "InlayHintsParams"@.len()) by { reveal_strlit("CodeActionProvider"); reveal_strlit("InlayHintsParams"); }
            lemma_prefix_conflict("CodeActionProvider"@, "InlayHintsParams"@, name, 0);
            assert("CodeActionProvider"@[0] != "InlineCompletion"@[0] && 0 < "CodeActionProvider"@.len() && 0 < "InlineCompletion"@.len()) by { reveal_strlit("CodeActionProvider"); reveal_strlit("InlineCompletion"); }
            lemma_prefix_conflict("CodeActionProvider"@, "InlineCompletion"@, name, 0);
            assert("CodeActionProvider"@[0] != "ReferencesRequest"@[0] && 0 < "CodeActionProvider"@.len() && 0 < "ReferencesRequest"@.len()) by { reveal_strlit("CodeActionProvider"); reveal_strlit("ReferencesRequest"); }
            lemma_prefix_conflict("CodeActionProvider"@, "ReferencesRequest"@, name, 0);
            assert("CodeActionProvider"@[0] != "RenameRequest"@[0] && 0 < "CodeActionProvider"@.len() && 0 < "RenameRequest"@.len()) by { reveal_strlit("CodeActionProvider"); reveal_strlit("RenameRequest"); }
            lemma_prefix_conflict("CodeActionProvider"@, "RenameRequest"@, name, 0);
            assert("CodeActionProvider"@[0] != "ResponseError"@[0] && 0 < "CodeActionProvider"@.len() && 0 < "ResponseError"@.len()) by { reveal_strlit("CodeActionProvider"); reveal_strlit("ResponseError"); }
            lemma_prefix_conflict("CodeActionProvider"@, "ResponseError"@, name, 0);
            assert("CodeActionProvider"@[0] != "SignatureHelpRequest"@[0] && 0 < "CodeActionProvider"@.len() && 0 < "SignatureHelpRequest"@.len()) by { reveal_strlit("CodeActionProvider"); reveal_strlit("SignatureHelpRequest"); }
            lemma_prefix_conflict("CodeActionProvider"@, "SignatureHelpRequest"@, name, 0);
            assert("CodeActionProvider"@[0] != "TextDocumentPosition"@[0] && 0 < "CodeActionProvider"@.len() && 0 < "TextDocumentPosition"@.len()) by { reveal_strlit("CodeActionProvider"); reveal_strlit("TextDocumentPosition"); }
            lemma_prefix_conflict("CodeActionProvider"@, "TextDocumentPosition"@, name, 0);
            assert("CodeActionProvider"@[0] != "WorkspaceSymbolRequest"@[0] && 0 < "CodeActionProvider"@.len() && 0 < "WorkspaceSymbolRequest"@.len()) by { reveal_strlit("CodeActionProvider"); reveal_strlit("WorkspaceSymbolRequest"); }
            lemma_prefix_conflict("CodeActionProvider"@, "WorkspaceSymbolRequest"@, name, 0);
            assert("CodeActionProvider"@[1] != "CallHierarchyIncomingCall"@[1] && 1 < "CodeActionProvider"@.len() && 1 < "CallHierarchyIncomingCall"@.len()) by { reveal_strlit("CodeActionProvider"); reveal_strlit("CallHierarchyIncomingCall"); }
            lemma_prefix_conflict("CodeActionProvider"@, "CallHierarchyIncomingCall"@, name, 1);
            assert("CodeActionProvider"@[1] != "CallHierarchyItem"@[1] && 1 < "CodeActionProvider"@.len() && 1 < "CallHierarchyItem"@.len()) by { reveal_strlit("CodeActionProvider"); reveal_strlit("CallHierarchyItem"); }
            lemma_prefix_conflict("CodeActionProvider"@, "CallHierarchyItem"@, name, 1);
            assert("CodeActionProvider"@[1] != "CallHierarchyItemProvider"@[1] && 1 < "CodeActionProvider"@.len() && 1 < "CallHierarchyItemProvider"@.len()) by { reveal_strlit("CodeActionProvider"); reveal_strlit("CallHierarchyItemProvider"); }
            lemma_prefix_conflict("CodeActionProvider"@, "CallHierarchyItemProvider"@, name, 1);
            assert("CodeActionProvider"@[1] != "CallHierarchyOutgoingCall"@[1] && 1 < "CodeActionProvider"@.len() && 1 < "CallHierarchyOutgoingCall"@.len()) by { reveal_strlit("CodeActionProvider"); reveal_strlit("CallHierarchyOutgoingCall"); }
            lemma_prefix_conflict("CodeActionProvider"@, "CallHierarchyOutgoingCall"@, name, 1);
    }
    if "ColorPresentation"@.is_prefix_of(name) && name != "ColorPresentationRequest"@ {
            assert("ColorPresentation"@[2] != "CodeActionRequest"@[2] && 2 < "ColorPresentation"@.len() && 2 < "CodeActionRequest"@.len()) by { reveal_strlit("ColorPresentation"); reveal_strlit("CodeActionRequest"); }
            lemma_prefix_conflict("ColorPresentation"@, "CodeActionRequest"@, name, 2);
            assert("ColorPresentation"@[2] != "CodeLensRequest"@[2] && 2 < "ColorPresentation"@.len() && 2 < "CodeLensRequest"@.len()) by { reveal_strlit("ColorPresentation"); reveal_strlit("CodeLensRequest"); }
            lemma_prefix_conflict("ColorPresentation"@, "CodeLensRequest"@, name, 2);
            assert("ColorPresentation"@[2] != "CodeLensResolveRequest"@[2] && 2 < "ColorPresentation"@.len() && 2 < "CodeLensResolveRequest"@.len()) by { reveal_strlit("ColorPresentation"); reveal_strlit("CodeLensResolveRequest"); }
            lemma_prefix_conflict("ColorPresentation"@, "CodeLensResolveRequest"@, name, 2);
            assert("ColorPresentation"@[2] != "CompletionRequest"@[2] && 2 < "ColorPresentation"@.len() && 2 < "CompletionRequest"@.len()) by { reveal_strlit("ColorPresentation"); reveal_strlit("CompletionRequest"); }
            lemma_prefix_conflict("ColorPresentation"@, "CompletionRequest"@, name, 2);
            assert("ColorPresentation"@[2] != "CompletionResolveRequest"@[2] && 2 < "ColorPresentation"@.len() && 2 < "CompletionResolveRequest"@.len()) by { reveal_strlit("ColorPresentation"); reveal_strlit("CompletionResolveRequest"); }
            lemma_prefix_conflict("ColorPresentation"@, "CompletionResolveRequest"@, name, 2);
            assert("ColorPresentation"@[0] != "DefinitionRequest"@[0] && 0 < "ColorPresentation"@.len() && 0 < "DefinitionRequest"@.len()) by { reveal_strlit("ColorPresentation"); reveal_strlit("DefinitionRequest"); }
            lemma_prefix_conflict("ColorPresentation"@, "DefinitionRequest"@, name, 0);
            assert("ColorPresentation"@[0] != "DocumentColorRequest"@[0] && 0 < "ColorPresentation"@.len() && 0 < "DocumentColorRequest"@.len()) by { reveal_strlit("ColorPresentation"); reveal_strlit("DocumentColorRequest"); }
            lemma_prefix_conflict("ColorPresentation"@, "DocumentColorRequest"@, name, 0);
            assert("ColorPresentation"@[0] != "DocumentFormattingRequest"@[0] && 0 < "ColorPresentation"@.len() && 0 < "DocumentFormattingRequest"@.len()) by { reveal_strlit("ColorPresentation"); reveal_strlit("DocumentFormattingRequest"); }
            lemma_prefix_conflict("ColorPresentation"@, "DocumentFormattingRequest"@, name, 0);
            assert("ColorPresentation"@[0] != "DocumentHighlightRequest"@[0] && 0 < "ColorPresentation"@.len() && 0 < "DocumentHighlightRequest"@.len()) by { reveal_strlit("ColorPresentation"); reveal_strlit("DocumentHighlightRequest"); }
            lemma_prefix_conflict("ColorPresentation"@, "DocumentHighlightRequest"@, name, 0);
            assert("ColorPresentation"@[0] != "DocumentLinkRequest"@[0] && 0 < "ColorPresentation"@.len() && 0 < "DocumentLinkRequest"@.len()) by { reveal_strlit("ColorPresentation"); reveal_strlit("DocumentLinkRequest"); }
            lemma_prefix_conflict("ColorPresentation"@, "DocumentLinkRequest"@, name, 0);
            assert("ColorPresentation"@[0] != "DocumentOnTypeFormattingRequest"@[0] && 0 < "ColorPresentation"@.len() && 0 < "DocumentOnTypeFormattingRequest"@.len()) by { reveal_strlit("ColorPresentation"); reveal_strlit("DocumentOnTypeFormattingRequest"); }
            lemma_prefix_conflict("ColorPresentation"@, "DocumentOnTypeFormattingRequest"@, name, 0);
            assert("ColorPresentation"@[0] != "DocumentRangeFormattingRequest"@[0] && 0 < "ColorPresentation"@.len() && 0 < "DocumentRangeFormattingRequest"@.len()) by { reveal_strlit("ColorPresentation"); reveal_strlit("DocumentRangeFormattingRequest"); }
            lemma_prefix_conflict("ColorPresentation"@, "DocumentRangeFormattingRequest"@, name, 0);
            assert("ColorPresentation"@[0] != "DocumentRangesFormattingRequest"@[0] && 0 < "ColorPresentation"@.len() && 0 < "DocumentRangesFormattingRequest"@.len()) by { reveal_strlit("ColorPresentation"); reveal_strlit("DocumentRangesFormattingRequest"); }
            lemma_prefix_conflict("ColorPresentation"@, "DocumentRangesFormattingRequest"@, name, 0);
            assert("ColorPresentation"@[0] != "DocumentSymbolRequest"@[0] && 0 < "ColorPresentation"@.len() && 0 < "DocumentSymbolRequest"@.len()) by { reveal_strlit("ColorPresentation"); reveal_strlit("DocumentSymbolRequest"); }
            lemma_prefix_conflict("ColorPresentation"@, "DocumentSymbolRequest"@, name, 0);
            assert("ColorPresentation"@[0] != "ExecuteCommandRequest"@[0] && 0 < "ColorPresentation"@.len() && 0 < "ExecuteCommandRequest"@.len()) by { reveal_strlit("ColorPresentation"); reveal_strlit("ExecuteCommandRequest"); }
            lemma_prefix_conflict("ColorPresentation"@, "ExecuteCommandRequest"@, name, 0);
            assert("ColorPresentation"@[0] != "FoldingRangeList"@[0] && 0 < "ColorPresentation"@.len() && 0 < "FoldingRangeList"@.len()) by { reveal_strlit("ColorPresentation"); reveal_strlit("FoldingRangeList"); }
            lemma_prefix_conflict("ColorPresentation"@, "FoldingRangeList"@, name, 0);
            assert("ColorPresentation"@[0] != "FoldingRangeRequest"@[0] && 0 < "ColorPresentation"@.len() && 0 < "FoldingRangeRequest"@.len()) by { reveal_strlit("ColorPresentation"); reveal_strlit("FoldingRangeRequest"); }
            lemma_prefix_conflict("ColorPresentation"@, "FoldingRangeRequest"@, name, 0);
            assert("ColorPresentation"@[0] != "HoverRequest"@[0] && 0 < "ColorPresentation"@.len() && 0 < "HoverRequest"@.len()) by { reveal_strlit("ColorPresentation"); reveal_strlit("HoverRequest"); }
            lemma_prefix_conflict("ColorPresentation"@, "HoverRequest"@, name, 0);
            assert("ColorPresentation"@[0] != "InlayHintsParams"@[0] && 0 < "ColorPresentation"@.len() && 0 < "InlayHintsParams"@.len()) by { reveal_strlit("ColorPresentation"); reveal_strlit("InlayHintsParams"); }
            lemma_prefix_conflict("ColorPresentation"@, "InlayHintsParams"@, name, 0);
            assert("ColorPresentation"@[0] != "InlineCompletion"@[0] && 0 < "ColorPresentation"@.len() && 0 < "InlineCompletion"@.len()) by { reveal_strlit("ColorPresentation"); reveal_strlit("InlineCompletion"); }
            lemma_prefix_conflict("ColorPresentation"@, "InlineCompletion"@, name, 0);
            assert("ColorPresentation"@[0] != "ReferencesRequest"@[0] && 0 < "ColorPresentation"@.len() && 0 < "ReferencesRequest"@.len()) by { reveal_strlit("ColorPresentation"); reveal_strlit("ReferencesRequest"); }
            lemma_prefix_conflict("ColorPresentation"@, "ReferencesRequest"@, name, 0);
            assert("ColorPresentation"@[0] != "RenameRequest"@[0] && 0 < "ColorPresentation"@.len() && 0 < "RenameRequest"@.len()) by { reveal_strlit("ColorPresentation"); reveal_strlit("RenameRequest"); }
            lemma_prefix_conflict("ColorPresentation"@, "RenameRequest"@, name, 0);
            assert("ColorPresentation"@[0] != "ResponseError"@[0] && 0 < "ColorPresentation"@.len() && 0 < "ResponseError"@.len()) by { reveal_strlit("ColorPresentation"); reveal_strlit("ResponseError"); }
            lemma_prefix_conflict("ColorPresentation"@, "ResponseError"@, name, 0);
            assert("ColorPresentation"@[0] != "SignatureHelpRequest"@[0] && 0 < "ColorPresentation"@.len() && 0 < "SignatureHelpRequest"@.len()) by { reveal_strlit("ColorPresentation"); reveal_strlit("SignatureHelpRequest"); }
            lemma_prefix_conflict("ColorPresentation"@, "SignatureHelpRequest"@, name, 0);
            assert("ColorPresentation"@[0] != "TextDocumentPosition"@[0] && 0 < "ColorPresentation"@.len() && 0 < "TextDocumentPosition"@.len()) by { reveal_strlit("ColorPresentation"); reveal_strlit("TextDocumentPosition"); }
            lemma_prefix_conflict("ColorPresentation"@, "TextDocumentPosition"@, name, 0);
            assert("ColorPresentation"@[0] != "WorkspaceSymbolRequest"@[0] && 0 < "ColorPresentation"@.len() && 0 < "WorkspaceSymbolRequest"@.len()) by { reveal_strlit("ColorPresentation"); reveal_strlit("WorkspaceSymbolRequest"); }
            lemma_prefix_conflict("ColorPresentation"@, "WorkspaceSymbolRequest"@, name, 0);
            assert("ColorPresentation"@[1] != "CallHierarchyIncomingCall"@[1] && 1 < "ColorPresentation"@.len() && 1 < "CallHierarchyIncomingCall"@.len()) by { reveal_strlit("ColorPresentation"); reveal_strlit("CallHierarchyIncomingCall"); }
            lemma_prefix_conflict("ColorPresentation"@, "CallHierarchyIncomingCall"@, name, 1);
            assert("ColorPresentation"@[1] != "CallHierarchyItem"@[1] && 1 < "ColorPresentation"@.len() && 1 < "CallHierarchyItem"@.len()) by { reveal_strlit("ColorPresentation"); reveal_strlit("CallHierarchyItem"); }
            lemma_prefix_conflict("ColorPresentation"@, "CallHierarchyItem"@, name, 1);
            assert("ColorPresentation"@[1] != "CallHierarchyItemProvider"@[1] && 1 < "ColorPresentation"@.len() && 1 < "CallHierarchyItemProvider"@.len()) by { reveal_strlit("ColorPresentation"); reveal_strlit("CallHierarchyItemProvider"); }
            lemma_prefix_conflict("ColorPresentation"@, "CallHierarchyItemProvider"@, name, 1);
            assert("ColorPresentation"@[1] != "CallHierarchyOutgoingCall"@[1] && 1 < "ColorPresentation"@.len() && 1 < "CallHierarchyOutgoingCall"@.len()) by { reveal_strlit("ColorPresentation"); reveal_strlit("CallHierarchyOutgoingCall"); }
            lemma_prefix_conflict("ColorPresentation"@, "CallHierarchyOutgoingCall"@, name, 1);
            assert("ColorPresentation"@[2] != "CodeActionProvider"@[2] && 2 < "ColorPresentation"@.len() && 2 < "CodeActionProvider"@.len()) by { reveal_strlit("ColorPresentation"); reveal_strlit("CodeActionProvider"); }
            lemma_prefix_conflict("ColorPresentation"@, "CodeActionProvider"@, name, 2);
    }
    if "CompletionItem"@.is_prefix_of(name) {
            assert("CompletionItem"@[2] != "CodeActionRequest"@[2] && 2 < "CompletionItem"@.len() && 2 < "CodeActionRequest"@.len()) by { reveal_strlit("CompletionItem"); reveal_strlit("CodeActionRequest"); }
            lemma_prefix_conflict("CompletionItem"@, "CodeActionRequest"@, name, 2);
            assert("CompletionItem"@[2] != "CodeLensRequest"@[2] && 2 < "CompletionItem"@.len() && 2 < "CodeLensRequest"@.len()) by { reveal_strlit("CompletionItem"); reveal_strlit("CodeLensRequest"); }
            lemma_prefix_conflict("CompletionItem"@, "CodeLensRequest"@, name, 2);
            assert("CompletionItem"@[2] != "CodeLensResolveRequest"@[2] && 2 < "CompletionItem"@.len() && 2 < "CodeLensResolveRequest"@.len()) by { reveal_strlit("CompletionItem"); reveal_strlit("CodeLensResolveRequest"); }
            lemma_prefix_conflict("CompletionItem"@, "CodeLensResolveRequest"@, name, 2);
            assert("CompletionItem"@[2] != "ColorPresentationRequest"@[2] && 2 < "CompletionItem"@.len() && 2 < "ColorPresentationRequest"@.len()) by { reveal_strlit("CompletionItem"); reveal_strlit("ColorPresentationRequest"); }
            lemma_prefix_conflict("CompletionItem"@, "ColorPresentationRequest"@, name, 2);
            assert("CompletionItem"@[10] != "CompletionRequest"@[10] && 10 < "CompletionItem"@.len() && 10 < "CompletionRequest"@.len()) by { reveal_strlit("CompletionItem"); reveal_strlit("CompletionRequest"); }
            lemma_prefix_conflict("CompletionItem"@, "CompletionRequest"@, name, 10);
            assert("CompletionItem"@[10] != "CompletionResolveRequest"@[10] && 10 < "CompletionItem"@.len() && 10 < "CompletionResolveRequest"@.len()) by { reveal_strlit("CompletionItem"); reveal_strlit("CompletionResolveRequest"); }
            lemma_prefix_conflict("CompletionItem"@, "CompletionResolveRequest"@, name, 10);
            assert("CompletionItem"@[0] != "DefinitionRequest"@[0] && 0 < "CompletionItem"@.len() && 0 < "DefinitionRequest"@.len()) by { reveal_strlit("CompletionItem"); reveal_strlit("DefinitionRequest"); }
            lemma_prefix_conflict("CompletionItem"@, "DefinitionRequest"@, name, 0);
            assert("CompletionItem"@[0] != "DocumentColorRequest"@[0] && 0 < "CompletionItem"@.len() && 0 < "DocumentColorRequest"@.len()) by { reveal_strlit("CompletionItem"); reveal_strlit("DocumentColorRequest"); }
            lemma_prefix_conflict("CompletionItem"@, "DocumentColorRequest"@, name, 0);
            assert("CompletionItem"@[0] != "DocumentFormattingRequest"@[0] && 0 < "CompletionItem"@.len() && 0 < "DocumentFormattingRequest"@.len()) by { reveal_strlit("CompletionItem"); reveal_strlit("DocumentFormattingRequest"); }
            lemma_prefix_conflict("CompletionItem"@, "DocumentFormattingRequest"@, name, 0);
            assert("CompletionItem"@[0] != "DocumentHighlightRequest"@[0] && 0 < "CompletionItem"@.len() && 0 < "DocumentHighlightRequest"@.len()) by { reveal_strlit("CompletionItem"); reveal_strlit("DocumentHighlightRequest"); }
            lemma_prefix_conflict("CompletionItem"@, "DocumentHighlightRequest"@, name, 0);
            assert("CompletionItem"@[0] != "DocumentLinkRequest"@[0] && 0 < "CompletionItem"@.len() && 0 < "DocumentLinkRequest"@.len()) by { reveal_strlit("CompletionItem"); reveal_strlit("DocumentLinkRequest"); }
            lemma_prefix_conflict("CompletionItem"@, "DocumentLinkRequest"@, name, 0);
            assert("CompletionItem"@[0] != "DocumentOnTypeFormattingRequest"@[0] && 0 < "CompletionItem"@.len() && 0 < "DocumentOnTypeFormattingRequest"@.len()) by { reveal_strlit("CompletionItem"); reveal_strlit("DocumentOnTypeFormattingRequest"); }
            lemma_prefix_conflict("CompletionItem"@, "DocumentOnTypeFormattingRequest"@, name, 0);
            assert("CompletionItem"@[0] != "DocumentRangeFormattingRequest"@[0] && 0 < "CompletionItem"@.len() && 0 < "DocumentRangeFormattingRequest"@.len()) by { reveal_strlit("CompletionItem"); reveal_strlit("DocumentRangeFormattingRequest"); }
            lemma_prefix_conflict("CompletionItem"@, "DocumentRangeFormattingRequest"@, name, 0);
            assert("CompletionItem"@[0] != "DocumentRangesFormattingRequest"@[0] && 0 < "CompletionItem"@.len() && 0 < "DocumentRangesFormattingRequest"@.len()) by { reveal_strlit("CompletionItem"); reveal_strlit("DocumentRangesFormattingRequest"); }
            lemma_prefix_conflict("CompletionItem"@, "DocumentRangesFormattingRequest"@, name, 0);
            assert("CompletionItem"@[0] != "DocumentSymbolRequest"@[0] && 0 < "CompletionItem"@.len() && 0 < "DocumentSymbolRequest"@.len()) by { reveal_strlit("CompletionItem"); reveal_strlit("DocumentSymbolRequest"); }
            lemma_prefix_conflict("CompletionItem"@, "DocumentSymbolRequest"@, name, 0);
            assert("CompletionItem"@[0] != "ExecuteCommandRequest"@[0] && 0 < "CompletionItem"@.len() && 0 < "ExecuteCommandRequest"@.len()) by { reveal_strlit("CompletionItem"); reveal_strlit("ExecuteCommandRequest"); }
            lemma_prefix_conflict("CompletionItem"@, "ExecuteCommandRequest"@, name, 0);
            assert("CompletionItem"@[0] != "FoldingRangeList"@[0] && 0 < "CompletionItem"@.len() && 0 < "FoldingRangeList"@.len()) by { reveal_strlit("CompletionItem"); reveal_strlit("FoldingRangeList"); }
            lemma_prefix_conflict("CompletionItem"@, "FoldingRangeList"@, name, 0);
            assert("CompletionItem"@[0] != "FoldingRangeRequest"@[0] && 0 < "CompletionItem"@.len() && 0 < "FoldingRangeRequest"@.len()) by { reveal_strlit("CompletionItem"); reveal_strlit("FoldingRangeRequest"); }
            lemma_prefix_conflict("CompletionItem"@, "FoldingRangeRequest"@, name, 0);
            assert("CompletionItem"@[0] != "HoverRequest"@[0] && 0 < "CompletionItem"@.len() && 0 < "HoverRequest"@.len()) by { reveal_strlit("CompletionItem"); reveal_strlit("HoverRequest"); }
            lemma_prefix_conflict("CompletionItem"@, "HoverRequest"@, name, 0);
            assert("CompletionItem"@[0] != "InlayHintsParams"@[0] && 0 < "CompletionItem"@.len() && 0 < "InlayHintsParams"@.len()) by { reveal_strlit("CompletionItem"); reveal_strlit("InlayHintsParams"); }
            lemma_prefix_conflict("CompletionItem"@, "InlayHintsParams"@, name, 0);
            assert("CompletionItem"@[0] != "InlineCompletion"@[0] && 0 < "CompletionItem"@.len() && 0 < "InlineCompletion"@.len()) by { reveal_strlit("CompletionItem"); reveal_strlit("InlineCompletion"); }
            lemma_prefix_conflict("CompletionItem"@, "InlineCompletion"@, name, 0);
            assert("CompletionItem"@[0] != "ReferencesRequest"@[0] && 0 < "CompletionItem"@.len() && 0 < "ReferencesRequest"@.len()) by { reveal_strlit("CompletionItem"); reveal_strlit("ReferencesRequest"); }
            lemma_prefix_conflict("CompletionItem"@, "ReferencesRequest"@, name, 0);
            assert("CompletionItem"@[0] != "RenameRequest"@[0] && 0 < "CompletionItem"@.len() && 0 < "RenameRequest"@.len()) by { reveal_strlit("CompletionItem"); reveal_strlit("RenameRequest"); }
            lemma_prefix_conflict("CompletionItem"@, "RenameRequest"@, name, 0);
            assert("CompletionItem"@[0] != "ResponseError"@[0] && 0 < "CompletionItem"@.len() && 0 < "ResponseError"@.len()) by { reveal_strlit("CompletionItem"); reveal_strlit("ResponseError"); }
            lemma_prefix_conflict("CompletionItem"@, "ResponseError"@, name, 0);
            assert("CompletionItem"@[0] != "SignatureHelpRequest"@[0] && 0 < "CompletionItem"@.len() && 0 < "SignatureHelpRequest"@.len()) by { reveal_strlit("CompletionItem"); reveal_strlit("SignatureHelpRequest"); }
            lemma_prefix_conflict("CompletionItem"@, "SignatureHelpRequest"@, name, 0);
            assert("CompletionItem"@[0] != "TextDocumentPosition"@[0] && 0 < "CompletionItem"@.len() && 0 < "TextDocumentPosition"@.len()) by { reveal_strlit("CompletionItem"); reveal_strlit("TextDocumentPosition"); }
            lemma_prefix_conflict("CompletionItem"@, "TextDocumentPosition"@, name, 0);
            assert("CompletionItem"@[0] != "WorkspaceSymbolRequest"@[0] && 0 < "CompletionItem"@.len() && 0 < "WorkspaceSymbolRequest"@.len()) by { reveal_strlit("CompletionItem"); reveal_strlit("WorkspaceSymbolRequest"); }
            lemma_prefix_conflict("CompletionItem"@, "WorkspaceSymbolRequest"@, name, 0);
            assert("CompletionItem"@[1] != "CallHierarchyIncomingCall"@[1] && 1 < "CompletionItem"@.len() && 1 < "CallHierarchyIncomingCall"@.len()) by { reveal_strlit("CompletionItem"); reveal_strlit("CallHierarchyIncomingCall"); }
            lemma_prefix_conflict("CompletionItem"@, "CallHierarchyIncomingCall"@, name, 1);
            assert("CompletionItem"@[1] != "CallHierarchyItem"@[1] && 1 < "CompletionItem"@.len() && 1 < "CallHierarchyItem"@.len()) by { reveal_strlit("CompletionItem"); reveal_strlit("CallHierarchyItem"); }
            lemma_prefix_conflict("CompletionItem"@, "CallHierarchyItem"@, name, 1);
            assert("CompletionItem"@[1] != "CallHierarchyItemProvider"@[1] && 1 < "CompletionItem"@.len() && 1 < "CallHierarchyItemProvider"@.len()) by { reveal_strlit("CompletionItem"); reveal_strlit("CallHierarchyItemProvider"); }
            lemma_prefix_conflict("CompletionItem"@, "CallHierarchyItemProvider"@, name, 1);
            assert("CompletionItem"@[1] != "CallHierarchyOutgoingCall"@[1] && 1 < "CompletionItem"@.len() && 1 < "CallHierarchyOutgoingCall"@.len()) by { reveal_strlit("CompletionItem"); reveal_strlit("CallHierarchyOutgoingCall"); }
            lemma_prefix_conflict("CompletionItem"@, "CallHierarchyOutgoingCall"@, name, 1);
            assert("CompletionItem"@[2] != "CodeActionProvider"@[2] && 2 < "CompletionItem"@.len() && 2 < "CodeActionProvider"@.len()) by { reveal_strlit("CompletionItem"); reveal_strlit("CodeActionProvider"); }
            lemma_prefix_conflict("CompletionItem"@, "CodeActionProvider"@, name, 2);
            assert("CompletionItem"@[2] != "ColorPresentation"@[2] && 2 < "CompletionItem"@.len() && 2 < "ColorPresentation"@.len()) by { reveal_strlit("CompletionItem"); reveal_strlit("ColorPresentation"); }
            lemma_prefix_conflict("CompletionItem"@, "ColorPresentation"@, name, 2);
    }
    if "DocumentHighlightKind"@.is_prefix_of(name) {
            assert("DocumentHighlightKind"@[0] != "CodeActionRequest"@[0] && 0 < "DocumentHighlightKind"@.len() && 0 < "CodeActionRequest"@.len()) by { reveal_strlit("DocumentHighlightKind"); reveal_strlit("CodeActionRequest"); }
            lemma_prefix_conflict("DocumentHighlightKind"@, "CodeActionRequest"@, name, 0);
            assert("DocumentHighlightKind"@[0] != "CodeLensRequest"@[0] && 0 < "DocumentHighlightKind"@.len() && 0 < "CodeLensRequest"@.len()) by { reveal_strlit("DocumentHighlightKind"); reveal_strlit("CodeLensRequest"); }
            lemma_prefix_conflict("DocumentHighlightKind"@, "CodeLensRequest"@, name, 0);
            assert("DocumentHighlightKind"@[0] != "CodeLensResolveRequest"@[0] && 0 < "DocumentHighlightKind"@.len() && 0 < "CodeLensResolveRequest"@.len()) by { reveal_strlit("DocumentHighlightKind"); reveal_strlit("CodeLensResolveRequest"); }
            lemma_prefix_conflict("DocumentHighlightKind"@, "CodeLensResolveRequest"@, name, 0);
            assert("DocumentHighlightKind"@[0] != "ColorPresentationRequest"@[0] && 0 < "DocumentHighlightKind"@.len() && 0 < "ColorPresentationRequest"@.len()) by { reveal_strlit("DocumentHighlightKind"); reveal_strlit("ColorPresentationRequest"); }
            lemma_prefix_conflict("DocumentHighlightKind"@, "ColorPresentationRequest"@, name, 0);
            assert("DocumentHighlightKind"@[0] != "CompletionRequest"@[0] && 0 < "DocumentHighlightKind"@.len() && 0 < "CompletionRequest"@.len()) by { reveal_strlit("DocumentHighlightKind"); reveal_strlit("CompletionRequest"); }
            lemma_prefix_conflict("DocumentHighlightKind"@, "CompletionRequest"@, name, 0);
            assert("DocumentHighlightKind"@[0] != "CompletionResolveRequest"@[0] && 0 < "DocumentHighlightKind"@.len() && 0 < "CompletionResolveRequest"@.len()) by { reveal_strlit("DocumentHighlightKind"); reveal_strlit("CompletionResolveRequest"); }
            lemma_prefix_conflict("DocumentHighlightKind"@, "CompletionResolveRequest"@, name, 0);
            assert("DocumentHighlightKind"@[1] != "DefinitionRequest"@[1] && 1 < "DocumentHighlightKind"@.len() && 1 < "DefinitionRequest"@.len()) by { reveal_strlit("DocumentHighlightKind"); reveal_strlit("DefinitionRequest"); }
            lemma_prefix_conflict("DocumentHighlightKind"@, "DefinitionRequest"@, name, 1);
            assert("DocumentHighlightKind"@[8] != "DocumentColorRequest"@[8] && 8 < "DocumentHighlightKind"@.len() && 8 < "DocumentColorRequest"@.len()) by { reveal_strlit("DocumentHighlightKind"); reveal_strlit("DocumentColorRequest"); }
            lemma_prefix_conflict("DocumentHighlightKind"@, "DocumentColorRequest"@, name, 8);
            assert("DocumentHighlightKind"@[8] != "DocumentFormattingRequest"@[8] && 8 < "DocumentHighlightKind"@.len() && 8 < "DocumentFormattingRequest"@.len()) by { reveal_strlit("DocumentHighlightKind"); reveal_strlit("DocumentFormattingRequest"); }
            lemma_prefix_conflict("DocumentHighlightKind"@, "DocumentFormattingRequest"@, name, 8);
            assert("DocumentHighlightKind"@[17] != "DocumentHighlightRequest"@[17] && 17 < "DocumentHighlightKind"@.len() && 17 < "DocumentHighlightRequest"@.len()) by { reveal_strlit("DocumentHighlightKind"); reveal_strlit("DocumentHighlightRequest"); }
            lemma_prefix_conflict("DocumentHighlightKind"@, "DocumentHighlightRequest"@, name, 17);
            assert("DocumentHighlightKind"@[8] != "DocumentLinkRequest"@[8] && 8 < "DocumentHighlightKind"@.len() && 8 < "DocumentLinkRequest"@.len()) by { reveal_strlit("DocumentHighlightKind"); reveal_strlit("DocumentLinkRequest"); }
            lemma_prefix_conflict("DocumentHighlightKind"@, "DocumentLinkRequest"@, name, 8);
            assert("DocumentHighlightKind"@[8] != "DocumentOnTypeFormattingRequest"@[8] && 8 < "DocumentHighlightKind"@.len() && 8 < "DocumentOnTypeFormattingRequest"@.len()) by { reveal_strlit("DocumentHighlightKind"); reveal_strlit("DocumentOnTypeFormattingRequest"); }
            lemma_prefix_conflict("DocumentHighlightKind"@, "DocumentOnTypeFormattingRequest"@, name, 8);
            assert("DocumentHighlightKind"@[8] != "DocumentRangeFormattingRequest"@[8] && 8 < "DocumentHighlightKind"@.len() && 8 < "DocumentRangeFormattingRequest"@.len()) by { reveal_strlit("DocumentHighlightKind"); reveal_strlit("DocumentRangeFormattingRequest"); }
            lemma_prefix_conflict("DocumentHighlightKind"@, "DocumentRangeFormattingRequest"@, name, 8);
            assert("DocumentHighlightKind"@[8] != "DocumentRangesFormattingRequest"@[8] && 8 < "DocumentHighlightKind"@.len() && 8 < "DocumentRangesFormattingRequest"@.len()) by { reveal_strlit("DocumentHighlightKind"); reveal_strlit("DocumentRangesFormattingRequest"); }
            lemma_prefix_conflict("DocumentHighlightKind"@, "DocumentRangesFormattingRequest"@, name, 8);
            assert("DocumentHighlightKind"@[8] != "DocumentSymbolRequest"@[8] && 8 < "DocumentHighlightKind"@.len() && 8 < "DocumentSymbolRequest"@.len()) by { reveal_strlit("DocumentHighlightKind"); reveal_strlit("DocumentSymbolRequest"); }
            lemma_prefix_conflict("DocumentHighlightKind"@, "DocumentSymbolRequest"@, name, 8);
            assert("DocumentHighlightKind"@[0] != "ExecuteCommandRequest"@[0] && 0 < "DocumentHighlightKind"@.len() && 0 < "ExecuteCommandRequest"@.len()) by { reveal_strlit("DocumentHighlightKind"); reveal_strlit("ExecuteCommandRequest"); }
            lemma_prefix_conflict("DocumentHighlightKind"@, "ExecuteCommandRequest"@, name, 0);
            assert("DocumentHighlightKind"@[0] != "FoldingRangeList"@[0] && 0 < "DocumentHighlightKind"@.len() && 0 < "FoldingRangeList"@.len()) by { reveal_strlit("DocumentHighlightKind"); reveal_strlit("FoldingRangeList"); }
            lemma_prefix_conflict("DocumentHighlightKind"@, "FoldingRangeList"@, name, 0);
            assert("DocumentHighlightKind"@[0] != "FoldingRangeRequest"@[0] && 0 < "DocumentHighlightKind"@.len() && 0 < "FoldingRangeRequest"@.len()) by { reveal_strlit("DocumentHighlightKind"); reveal_strlit("FoldingRangeRequest"); }
            lemma_prefix_conflict("DocumentHighlightKind"@, "FoldingRangeRequest"@, name, 0);
            assert("DocumentHighlightKind"@[0] != "HoverRequest"@[0] && 0 < "DocumentHighlightKind"@.len() && 0 < "HoverRequest"@.len()) by { reveal_strlit("DocumentHighlightKind"); reveal_strlit("HoverRequest"); }
            lemma_prefix_conflict("DocumentHighlightKind"@, "HoverRequest"@, name, 0);
            assert("DocumentHighlightKind"@[0] != "InlayHintsParams"@[0] && 0 < "DocumentHighlightKind"@.len() && 0 < "InlayHintsParams"@.len()) by { reveal_strlit("DocumentHighlightKind"); reveal_strlit("InlayHintsParams"); }
            lemma_prefix_conflict("DocumentHighlightKind"@, "InlayHintsParams"@, name, 0);
            assert("DocumentHighlightKind"@[0] != "InlineCompletion"@[0] && 0 < "DocumentHighlightKind"@.len() && 0 < "InlineCompletion"@.len()) by { reveal_strlit("DocumentHighlightKind"); reveal_strlit("InlineCompletion"); }
            lemma_prefix_conflict("DocumentHighlightKind"@, "InlineCompletion"@, name, 0);
            assert("DocumentHighlightKind"@[0] != "ReferencesRequest"@[0] && 0 < "DocumentHighlightKind"@.len() && 0 < "ReferencesRequest"@.len()) by { reveal_strlit("DocumentHighlightKind"); reveal_strlit("ReferencesRequest"); }
            lemma_prefix_conflict("DocumentHighlightKind"@, "ReferencesRequest"@, name, 0);
            assert("DocumentHighlightKind"@[0] != "RenameRequest"@[0] && 0 < "DocumentHighlightKind"@.len() && 0 < "RenameRequest"@.len()) by { reveal_strlit("DocumentHighlightKind"); reveal_strlit("RenameRequest"); }
            lemma_prefix_conflict("DocumentHighlightKind"@, "RenameRequest"@, name, 0);
            assert("DocumentHighlightKind"@[0] != "ResponseError"@[0] && 0 < "DocumentHighlightKind"@.len() && 0 < "ResponseError"@.len()) by { reveal_strlit("DocumentHighlightKind"); reveal_strlit("ResponseError"); }
            lemma_prefix_conflict("DocumentHighlightKind"@, "ResponseError"@, name, 0);
            assert("DocumentHighlightKind"@[0] != "SignatureHelpRequest"@[0] && 0 < "DocumentHighlightKind"@.len() && 0 < "SignatureHelpRequest"@.len()) by { reveal_strlit("DocumentHighlightKind"); reveal_strlit("SignatureHelpRequest"); }
            lemma_prefix_conflict("DocumentHighlightKind"@, "SignatureHelpRequest"@, name, 0);
            assert("DocumentHighlightKind"@[0] != "TextDocumentPosition"@[0] && 0 < "DocumentHighlightKind"@.len() && 0 < "TextDocumentPosition"@.len()) by { reveal_strlit("DocumentHighlightKind"); reveal_strlit("TextDocumentPosition"); }
            lemma_prefix_conflict("DocumentHighlightKind"@, "TextDocumentPosition"@, name, 0);
            assert("DocumentHighlightKind"@[0] != "WorkspaceSymbolRequest"@[0] && 0 < "DocumentHighlightKind"@.len() && 0 < "WorkspaceSymbolRequest"@.len()) by { reveal_strlit("DocumentHighlightKind"); reveal_strlit("WorkspaceSymbolRequest"); }
            lemma_prefix_conflict("DocumentHighlightKind"@, "WorkspaceSymbolRequest"@, name, 0);
            assert("DocumentHighlightKind"@[0] != "CallHierarchyIncomingCall"@[0] && 0 < "DocumentHighlightKind"@.len() && 0 < "CallHierarchyIncomingCall"@.len()) by { reveal_strlit("DocumentHighlightKind"); reveal_strlit("CallHierarchyIncomingCall"); }
            lemma_prefix_conflict("DocumentHighlightKind"@, "CallHierarchyIncomingCall"@, name, 0);
            assert("DocumentHighlightKind"@[0] != "CallHierarchyItem"@[0] && 0 < "DocumentHighlightKind"@.len() && 0 < "CallHierarchyItem"@.len()) by { reveal_strlit("DocumentHighlightKind"); reveal_strlit("CallHierarchyItem"); }
            lemma_prefix_conflict("DocumentHighlightKind"@, "CallHierarchyItem"@, name, 0);
            assert("DocumentHighlightKind"@[0] != "CallHierarchyItemProvider"@[0] && 0 < "DocumentHighlightKind"@.len() && 0 < "CallHierarchyItemProvider"@.len()) by { reveal_strlit("DocumentHighlightKind"); reveal_strlit("CallHierarchyItemProvider"); }
            lemma_prefix_conflict("DocumentHighlightKind"@, "CallHierarchyItemProvider"@, name, 0);
            assert("DocumentHighlightKind"@[0] != "CallHierarchyOutgoingCall"@[0] && 0 < "DocumentHighlightKind"@.len() && 0 < "CallHierarchyOutgoingCall"@.len()) by { reveal_strlit("DocumentHighlightKind"); reveal_strlit("CallHierarchyOutgoingCall"); }
            lemma_prefix_conflict("DocumentHighlightKind"@, "CallHierarchyOutgoingCall"@, name, 0);
            assert("DocumentHighlightKind"@[0] != "CodeActionProvider"@[0] && 0 < "DocumentHighlightKind"@.len() && 0 < "CodeActionProvider"@.len()) by { reveal_strlit("DocumentHighlightKind"); reveal_strlit("CodeActionProvider"); }
            lemma_prefix_conflict("DocumentHighlightKind"@, "CodeActionProvider"@, name, 0);
            assert("DocumentHighlightKind"@[0] != "ColorPresentation"@[0] && 0 < "DocumentHighlightKind"@.len() && 0 < "ColorPresentation"@.len()) by { reveal_strlit("DocumentHighlightKind"); reveal_strlit("ColorPresentation"); }
            lemma_prefix_conflict("DocumentHighlightKind"@, "ColorPresentation"@, name, 0);
            assert("DocumentHighlightKind"@[0] != "CompletionItem"@[0] && 0 < "DocumentHighlightKind"@.len() && 0 < "CompletionItem"@.len()) by { reveal_strlit("DocumentHighlightKind"); reveal_strlit("CompletionItem"); }
            lemma_prefix_conflict("DocumentHighlightKind"@, "CompletionItem"@, name, 0);
    }
    if "InlineCompletionItem"@.is_prefix_of(name) {
            assert("InlineCompletionItem"@[0] != "CodeActionRequest"@[0] && 0 < "InlineCompletionItem"@.len() && 0 < "CodeActionRequest"@.len()) by { reveal_strlit("InlineCompletionItem"); reveal_strlit("CodeActionRequest"); }
            lemma_prefix_conflict("InlineCompletionItem"@, "CodeActionRequest"@, name, 0);
            assert("InlineCompletionItem"@[0] != "CodeLensRequest"@[0] && 0 < "InlineCompletionItem"@.len() && 0 < "CodeLensRequest"@.len()) by { reveal_strlit("InlineCompletionItem"); reveal_strlit("CodeLensRequest"); }
            lemma_prefix_conflict("InlineCompletionItem"@, "CodeLensRequest"@, name, 0);
            assert("InlineCompletionItem"@[0] != "CodeLensResolveRequest"@[0] && 0 < "InlineCompletionItem"@.len() && 0 < "CodeLensResolveRequest"@.len()) by { reveal_strlit("InlineCompletionItem"); reveal_strlit("CodeLensResolveRequest"); }
            lemma_prefix_conflict("InlineCompletionItem"@, "CodeLensResolveRequest"@, name, 0);
            assert("InlineCompletionItem"@[0] != "ColorPresentationRequest"@[0] && 0 < "InlineCompletionItem"@.len() && 0 < "ColorPresentationRequest"@.len()) by { reveal_strlit("InlineCompletionItem"); reveal_strlit("ColorPresentationRequest"); }
            lemma_prefix_conflict("InlineCompletionItem"@, "ColorPresentationRequest"@, name, 0);
            assert("InlineCompletionItem"@[0] != "CompletionRequest"@[0] && 0 < "InlineCompletionItem"@.len() && 0 < "CompletionRequest"@.len()) by { reveal_strlit("InlineCompletionItem"); reveal_strlit("CompletionRequest"); }
            lemma_prefix_conflict("InlineCompletionItem"@, "CompletionRequest"@, name, 0);
            assert("InlineCompletionItem"@[0] != "CompletionResolveRequest"@[0] && 0 < "InlineCompletionItem"@.len() && 0 < "CompletionResolveRequest"@.len()) by { reveal_strlit("InlineCompletionItem"); reveal_strlit("CompletionResolveRequest"); }
            lemma_prefix_conflict("InlineCompletionItem"@, "CompletionResolveRequest"@, name, 0);
            assert("InlineCompletionItem"@[0] != "DefinitionRequest"@[0] && 0 < "InlineCompletionItem"@.len() && 0 < "DefinitionRequest"@.len()) by { reveal_strlit("InlineCompletionItem"); reveal_strlit("DefinitionRequest"); }
            lemma_prefix_conflict("InlineCompletionItem"@, "DefinitionRequest"@, name, 0);
            assert("InlineCompletionItem"@[0] != "DocumentColorRequest"@[0] && 0 < "InlineCompletionItem"@.len() && 0 < "DocumentColorRequest"@.len()) by { reveal_strlit("InlineCompletionItem"); reveal_strlit("DocumentColorRequest"); }
            lemma_prefix_conflict("InlineCompletionItem"@, "DocumentColorRequest"@, name, 0);
            assert("InlineCompletionItem"@[0] != "DocumentFormattingRequest"@[0] && 0 < "InlineCompletionItem"@.len() && 0 < "DocumentFormattingRequest"@.len()) by { reveal_strlit("InlineCompletionItem"); reveal_strlit("DocumentFormattingRequest"); }
            lemma_prefix_conflict("InlineCompletionItem"@, "DocumentFormattingRequest"@, name, 0);
            assert("InlineCompletionItem"@[0] != "DocumentHighlightRequest"@[0] && 0 < "InlineCompletionItem"@.len() && 0 < "DocumentHighlightRequest"@.len()) by { reveal_strlit("InlineCompletionItem"); reveal_strlit("DocumentHighlightRequest"); }
            lemma_prefix_conflict("InlineCompletionItem"@, "DocumentHighlightRequest"@, name, 0);
            assert("InlineCompletionItem"@[0] != "DocumentLinkRequest"@[0] && 0 < "InlineCompletionItem"@.len() && 0 < "DocumentLinkRequest"@.len()) by { reveal_strlit("InlineCompletionItem"); reveal_strlit("DocumentLinkRequest"); }
            lemma_prefix_conflict("InlineCompletionItem"@, "DocumentLinkRequest"@, name, 0);
            assert("InlineCompletionItem"@[0] != "DocumentOnTypeFormattingRequest"@[0] && 0 < "InlineCompletionItem"@.len() && 0 < "DocumentOnTypeFormattingRequest"@.len()) by { reveal_strlit("InlineCompletionItem"); reveal_strlit("DocumentOnTypeFormattingRequest"); }
            lemma_prefix_conflict("InlineCompletionItem"@, "DocumentOnTypeFormattingRequest"@, name, 0);
            assert("InlineCompletionItem"@[0] != "DocumentRangeFormattingRequest"@[0] && 0 < "InlineCompletionItem"@.len() && 0 < "DocumentRangeFormattingRequest"@.len()) by { reveal_strlit("InlineCompletionItem"); reveal_strlit("DocumentRangeFormattingRequest"); }
            lemma_prefix_conflict("InlineCompletionItem"@, "DocumentRangeFormattingRequest"@, name, 0);
            assert("InlineCompletionItem"@[0] != "DocumentRangesFormattingRequest"@[0] && 0 < "InlineCompletionItem"@.len() && 0 < "DocumentRangesFormattingRequest"@.len()) by { reveal_strlit("InlineCompletionItem"); reveal_strlit("DocumentRangesFormattingRequest"); }
            lemma_prefix_conflict("InlineCompletionItem"@, "DocumentRangesFormattingRequest"@, name, 0);
            assert("InlineCompletionItem"@[0] != "DocumentSymbolRequest"@[0] && 0 < "InlineCompletionItem"@.len() && 0 < "DocumentSymbolRequest"@.len()) by { reveal_strlit("InlineCompletionItem"); reveal_strlit("DocumentSymbolRequest"); }
            lemma_prefix_conflict("InlineCompletionItem"@, "DocumentSymbolRequest"@, name, 0);
            assert("InlineCompletionItem"@[0] != "ExecuteCommandRequest"@[0] && 0 < "InlineCompletionItem"@.len() && 0 < "ExecuteCommandRequest"@.len()) by { reveal_strlit("InlineCompletionItem"); reveal_strlit("ExecuteCommandRequest"); }
            lemma_prefix_conflict("InlineCompletionItem"@, "ExecuteCommandRequest"@, name, 0);
            assert("InlineCompletionItem"@[0] != "FoldingRangeList"@[0] && 0 < "InlineCompletionItem"@.len() && 0 < "FoldingRangeList"@.len()) by { reveal_strlit("InlineCompletionItem"); reveal_strlit("FoldingRangeList"); }
            lemma_prefix_conflict("InlineCompletionItem"@, "FoldingRangeList"@, name, 0);
            assert("InlineCompletionItem"@[0] != "FoldingRangeRequest"@[0] && 0 < "InlineCompletionItem"@.len() && 0 < "FoldingRangeRequest"@.len()) by { reveal_strlit("InlineCompletionItem"); reveal_strlit("FoldingRangeRequest"); }
            lemma_prefix_conflict("InlineCompletionItem"@, "FoldingRangeRequest"@, name, 0);
            assert("InlineCompletionItem"@[0] != "HoverRequest"@[0] && 0 < "InlineCompletionItem"@.len() && 0 < "HoverRequest"@.len()) by { reveal_strlit("InlineCompletionItem"); reveal_strlit("HoverRequest"); }
            lemma_prefix_conflict("InlineCompletionItem"@, "HoverRequest"@, name, 0);
            assert("InlineCompletionItem"@[3] != "InlayHintsParams"@[3] && 3 < "InlineCompletionItem"@.len() && 3 < "InlayHintsParams"@.len()) by { reveal_strlit("InlineCompletionItem"); reveal_strlit("InlayHintsParams"); }
            lemma_prefix_conflict("InlineCompletionItem"@, "InlayHintsParams"@, name, 3);
            assert("InlineCompletionItem"@.len() > "InlineCompletion"@.len()) by { reveal_strlit("InlineCompletionItem"); reveal_strlit("InlineCompletion"); }
            lemma_prefix_longer("InlineCompletionItem"@, "InlineCompletion"@, name);
            assert("InlineCompletionItem"@[0] != "ReferencesRequest"@[0] && 0 < "InlineCompletionItem"@.len() && 0 < "ReferencesRequest"@.len()) by { reveal_strlit("InlineCompletionItem"); reveal_strlit("ReferencesRequest"); }
            lemma_prefix_conflict("InlineCompletionItem"@, "ReferencesRequest"@, name, 0);
            assert("InlineCompletionItem"@[0] != "RenameRequest"@[0] && 0 < "InlineCompletionItem"@.len() && 0 < "RenameRequest"@.len()) by { reveal_strlit("InlineCompletionItem"); reveal_strlit("RenameRequest"); }
            lemma_prefix_conflict("InlineCompletionItem"@, "RenameRequest"@, name, 0);
            assert("InlineCompletionItem"@[0] != "ResponseError"@[0] && 0 < "InlineCompletionItem"@.len() && 0 < "ResponseError"@.len()) by { reveal_strlit("InlineCompletionItem"); reveal_strlit("ResponseError"); }
            lemma_prefix_conflict("InlineCompletionItem"@, "ResponseError"@, name, 0);
            assert("InlineCompletionItem"@[0] != "SignatureHelpRequest"@[0] && 0 < "InlineCompletionItem"@.len() && 0 < "SignatureHelpRequest"@.len()) by { reveal_strlit("InlineCompletionItem"); reveal_strlit("SignatureHelpRequest"); }
            lemma_prefix_conflict("InlineCompletionItem"@, "SignatureHelpRequest"@, name, 0);
            assert("InlineCompletionItem"@[0] != "TextDocumentPosition"@[0] && 0 < "InlineCompletionItem"@.len() && 0 < "TextDocumentPosition"@.len()) by { reveal_strlit("InlineCompletionItem"); reveal_strlit("TextDocumentPosition"); }
            lemma_prefix_conflict("InlineCompletionItem"@, "TextDocumentPosition"@, name, 0);
            assert("InlineCompletionItem"@[0] != "WorkspaceSymbolRequest"@[0] && 0 < "InlineCompletionItem"@.len() && 0 < "WorkspaceSymbolRequest"@.len()) by { reveal_strlit("InlineCompletionItem"); reveal_strlit("WorkspaceSymbolRequest"); }
            lemma_prefix_conflict("InlineCompletionItem"@, "WorkspaceSymbolRequest"@, name, 0);
            assert("InlineCompletionItem"@[0] != "CallHierarchyIncomingCall"@[0] && 0 < "InlineCompletionItem"@.len() && 0 < "CallHierarchyIncomingCall"@.len()) by { reveal_strlit("InlineCompletionItem"); reveal_strlit("CallHierarchyIncomingCall"); }
            lemma_prefix_conflict("InlineCompletionItem"@, "CallHierarchyIncomingCall"@, name, 0);
            assert("InlineCompletionItem"@[0] != "CallHierarchyItem"@[0] && 0 < "InlineCompletionItem"@.len() && 0 < "CallHierarchyItem"@.len()) by { reveal_strlit("InlineCompletionItem"); reveal_strlit("CallHierarchyItem"); }
            lemma_prefix_conflict("InlineCompletionItem"@, "CallHierarchyItem"@, name, 0);
            assert("InlineCompletionItem"@[0] != "CallHierarchyItemProvider"@[0] && 0 < "InlineCompletionItem"@.len() && 0 < "CallHierarchyItemProvider"@.len()) by { reveal_strlit("InlineCompletionItem"); reveal_strlit("CallHierarchyItemProvider"); }
            lemma_prefix_conflict("InlineCompletionItem"@, "CallHierarchyItemProvider"@, name, 0);
            assert("InlineCompletionItem"@[0] != "CallHierarchyOutgoingCall"@[0] && 0 < "InlineCompletionItem"@.len() && 0 < "CallHierarchyOutgoingCall"@.len()) by { reveal_strlit("InlineCompletionItem"); reveal_strlit("CallHierarchyOutgoingCall"); }
            lemma_prefix_conflict("InlineCompletionItem"@, "CallHierarchyOutgoingCall"@, name, 0);
            assert("InlineCompletionItem"@[0] != "CodeActionProvider"@[0] && 0 < "InlineCompletionItem"@.len() && 0 < "CodeActionProvider"@.len()) by { reveal_strlit("InlineCompletionItem"); reveal_strlit("CodeActionProvider"); }
            lemma_prefix_conflict("InlineCompletionItem"@, "CodeActionProvider"@, name, 0);
            assert("InlineCompletionItem"@[0] != "ColorPresentation"@[0] && 0 < "InlineCompletionItem"@.len() && 0 < "ColorPresentation"@.len()) by { reveal_strlit("InlineCompletionItem"); reveal_strlit("ColorPresentation"); }
            lemma_prefix_conflict("InlineCompletionItem"@, "ColorPresentation"@, name, 0);
            assert("InlineCompletionItem"@[0] != "CompletionItem"@[0] && 0 < "InlineCompletionItem"@.len() && 0 < "CompletionItem"@.len()) by { reveal_strlit("InlineCompletionItem"); reveal_strlit("CompletionItem"); }
            lemma_prefix_conflict("InlineCompletionItem"@, "CompletionItem"@, name, 0);
            assert("InlineCompletionItem"@[0] != "DocumentHighlightKind"@[0] && 0 < "InlineCompletionItem"@.len() && 0 < "DocumentHighlightKind"@.len()) by { reveal_strlit("InlineCompletionItem"); reveal_strlit("DocumentHighlightKind"); }
            lemma_prefix_conflict("InlineCompletionItem"@, "DocumentHighlightKind"@, name, 0);
    }
    if "TextDocument"@.is_prefix_of(name) && name != "TextDocumentPosition"@ {
            assert("TextDocument"@[0] != "CodeActionRequest"@[0] && 0 < "TextDocument"@.len() && 0 < "CodeActionRequest"@.len()) by { reveal_strlit("TextDocument"); reveal_strlit("CodeActionRequest"); }
            lemma_prefix_conflict("TextDocument"@, "CodeActionRequest"@, name, 0);
            assert("TextDocument"@[0] != "CodeLensRequest"@[0] && 0 < "TextDocument"@.len() && 0 < "CodeLensRequest"@.len()) by { reveal_strlit("TextDocument"); reveal_strlit("CodeLensRequest"); }
            lemma_prefix_conflict("TextDocument"@, "CodeLensRequest"@, name, 0);
            assert("TextDocument"@[0] != "CodeLensResolveRequest"@[0] && 0 < "TextDocument"@.len() && 0 < "CodeLensResolveRequest"@.len()) by { reveal_strlit("TextDocument"); reveal_strlit("CodeLensResolveRequest"); }
            lemma_prefix_conflict("TextDocument"@, "CodeLensResolveRequest"@, name, 0);
            assert("TextDocument"@[0] != "ColorPresentationRequest"@[0] && 0 < "TextDocument"@.len() && 0 < "ColorPresentationRequest"@.len()) by { reveal_strlit("TextDocument"); reveal_strlit("ColorPresentationRequest"); }
            lemma_prefix_conflict("TextDocument"@, "ColorPresentationRequest"@, name, 0);
            assert("TextDocument"@[0] != "CompletionRequest"@[0] && 0 < "TextDocument"@.len() && 0 < "CompletionRequest"@.len()) by { reveal_strlit("TextDocument"); reveal_strlit("CompletionRequest"); }
            lemma_prefix_conflict("TextDocument"@, "CompletionRequest"@, name, 0);
            assert("TextDocument"@[0] != "CompletionResolveRequest"@[0] && 0 < "TextDocument"@.len() && 0 < "CompletionResolveRequest"@.len()) by { reveal_strlit("TextDocument"); reveal_strlit("CompletionResolveRequest"); }
            lemma_prefix_conflict("TextDocument"@, "CompletionResolveRequest"@, name, 0);
            assert("TextDocument"@[0] != "DefinitionRequest"@[0] && 0 < "TextDocument"@.len() && 0 < "DefinitionRequest"@.len()) by { reveal_strlit("TextDocument"); reveal_strlit("DefinitionRequest"); }
            lemma_prefix_conflict("TextDocument"@, "DefinitionRequest"@, name, 0);
            assert("TextDocument"@[0] != "DocumentColorRequest"@[0] && 0 < "TextDocument"@.len() && 0 < "DocumentColorRequest"@.len()) by { reveal_strlit("TextDocument"); reveal_strlit("DocumentColorRequest"); }
            lemma_prefix_conflict("TextDocument"@, "DocumentColorRequest"@, name, 0);
            assert("TextDocument"@[0] != "DocumentFormattingRequest"@[0] && 0 < "TextDocument"@.len() && 0 < "DocumentFormattingRequest"@.len()) by { reveal_strlit("TextDocument"); reveal_strlit("DocumentFormattingRequest"); }
            lemma_prefix_conflict("TextDocument"@, "DocumentFormattingRequest"@, name, 0);
            assert("TextDocument"@[0] != "DocumentHighlightRequest"@[0] && 0 < "TextDocument"@.len() && 0 < "DocumentHighlightRequest"@.len()) by { reveal_strlit("TextDocument"); reveal_strlit("DocumentHighlightRequest"); }
            lemma_prefix_conflict("TextDocument"@, "DocumentHighlightRequest"@, name, 0);
            assert("TextDocument"@[0] != "DocumentLinkRequest"@[0] && 0 < "TextDocument"@.len() && 0 < "DocumentLinkRequest"@.len()) by { reveal_strlit("TextDocument"); reveal_strlit("DocumentLinkRequest"); }
            lemma_prefix_conflict("TextDocument"@, "DocumentLinkRequest"@, name, 0);
            assert("TextDocument"@[0] != "DocumentOnTypeFormattingRequest"@[0] && 0 < "TextDocument"@.len() && 0 < "DocumentOnTypeFormattingRequest"@.len()) by { reveal_strlit("TextDocument"); reveal_strlit("DocumentOnTypeFormattingRequest"); }
            lemma_prefix_conflict("TextDocument"@, "DocumentOnTypeFormattingRequest"@, name, 0);
            assert("TextDocument"@[0] != "DocumentRangeFormattingRequest"@[0] && 0 < "TextDocument"@.len() && 0 < "DocumentRangeFormattingRequest"@.len()) by { reveal_strlit("TextDocument"); reveal_strlit("DocumentRangeFormattingRequest"); }
            lemma_prefix_conflict("TextDocument"@, "DocumentRangeFormattingRequest"@, name, 0);
            assert("TextDocument"@[0] != "DocumentRangesFormattingRequest"@[0] && 0 < "TextDocument"@.len() && 0 < "DocumentRangesFormattingRequest"@.len()) by { reveal_strlit("TextDocument"); reveal_strlit("DocumentRangesFormattingRequest"); }
            lemma_prefix_conflict("TextDocument"@, "DocumentRangesFormattingRequest"@, name, 0);
            assert("TextDocument"@[0] != "DocumentSymbolRequest"@[0] && 0 < "TextDocument"@.len() && 0 < "DocumentSymbolRequest"@.len()) by { reveal_strlit("TextDocument"); reveal_strlit("DocumentSymbolRequest"); }
            lemma_prefix_conflict("TextDocument"@, "DocumentSymbolRequest"@, name, 0);
            assert("TextDocument"@[0] != "ExecuteCommandRequest"@[0] && 0 < "TextDocument"@.len() && 0 < "ExecuteCommandRequest"@.len()) by { reveal_strlit("TextDocument"); reveal_strlit("ExecuteCommandRequest"); }
            lemma_prefix_conflict("TextDocument"@, "ExecuteCommandRequest"@, name, 0);
            assert("TextDocument"@[0] != "FoldingRangeList"@[0] && 0 < "TextDocument"@.len() && 0 < "FoldingRangeList"@.len()) by { reveal_strlit("TextDocument"); reveal_strlit("FoldingRangeList"); }
            lemma_prefix_conflict("TextDocument"@, "FoldingRangeList"@, name, 0);
            assert("TextDocument"@[0] != "FoldingRangeRequest"@[0] && 0 < "TextDocument"@.len() && 0 < "FoldingRangeRequest"@.len()) by { reveal_strlit("TextDocument"); reveal_strlit("FoldingRangeRequest"); }
            lemma_prefix_conflict("TextDocument"@, "FoldingRangeRequest"@, name, 0);
            assert("TextDocument"@[0] != "HoverRequest"@[0] && 0 < "TextDocument"@.len() && 0 < "HoverRequest"@.len()) by { reveal_strlit("TextDocument"); reveal_strlit("HoverRequest"); }
            lemma_prefix_conflict("TextDocument"@, "HoverRequest"@, name, 0);
            assert("TextDocument"@[0] != "InlayHintsParams"@[0] && 0 < "TextDocument"@.len() && 0 < "InlayHintsParams"@.len()) by { reveal_strlit("TextDocument"); reveal_strlit("InlayHintsParams"); }
            lemma_prefix_conflict("TextDocument"@, "InlayHintsParams"@, name, 0);
            assert("TextDocument"@[0] != "InlineCompletion"@[0] && 0 < "TextDocument"@.len() && 0 < "InlineCompletion"@.len()) by { reveal_strlit("TextDocument"); reveal_strlit("InlineCompletion"); }
            lemma_prefix_conflict("TextDocument"@, "InlineCompletion"@, name, 0);
            assert("TextDocument"@[0] != "ReferencesRequest"@[0] && 0 < "TextDocument"@.len() && 0 < "ReferencesRequest"@.len()) by { reveal_strlit("TextDocument"); reveal_strlit("ReferencesRequest"); }
            lemma_prefix_conflict("TextDocument"@, "ReferencesRequest"@, name, 0);
            assert("TextDocument"@[0] != "RenameRequest"@[0] && 0 < "TextDocument"@.len() && 0 < "RenameRequest"@.len()) by { reveal_strlit("TextDocument"); reveal_strlit("RenameRequest"); }
            lemma_prefix_conflict("TextDocument"@, "RenameRequest"@, name, 0);
            assert("TextDocument"@[0] != "ResponseError"@[0] && 0 < "TextDocument"@.len() && 0 < "ResponseError"@.len()) by { reveal_strlit("TextDocument"); reveal_strlit("ResponseError"); }
            lemma_prefix_conflict("TextDocument"@, "ResponseError"@, name, 0);
            assert("TextDocument"@[0] != "SignatureHelpRequest"@[0] && 0 < "TextDocument"@.len() && 0 < "SignatureHelpRequest"@.len()) by { reveal_strlit("TextDocument"); reveal_strlit("SignatureHelpRequest"); }
            lemma_prefix_conflict("TextDocument"@, "SignatureHelpRequest"@, name, 0);
            assert("TextDocument"@[0] != "WorkspaceSymbolRequest"@[0] && 0 < "TextDocument"@.len() && 0 < "WorkspaceSymbolRequest"@.len()) by { reveal_strlit("TextDocument"); reveal_strlit("WorkspaceSymbolRequest"); }
            lemma_prefix_conflict("TextDocument"@, "WorkspaceSymbolRequest"@, name, 0);
            assert("TextDocument"@[0] != "CallHierarchyIncomingCall"@[0] && 0 < "TextDocument"@.len() && 0 < "CallHierarchyIncomingCall"@.len()) by { reveal_strlit("TextDocument"); reveal_strlit("CallHierarchyIncomingCall"); }
            lemma_prefix_conflict("TextDocument"@, "CallHierarchyIncomingCall"@, name, 0);
            assert("TextDocument"@[0] != "CallHierarchyItem"@[0] && 0 < "TextDocument"@.len() && 0 < "CallHierarchyItem"@.len()) by { reveal_strlit("TextDocument"); reveal_strlit("CallHierarchyItem"); }
            lemma_prefix_conflict("TextDocument"@, "CallHierarchyItem"@, name, 0);
            assert("TextDocument"@[0] != "CallHierarchyItemProvider"@[0] && 0 < "TextDocument"@.len() && 0 < "CallHierarchyItemProvider"@.len()) by { reveal_strlit("TextDocument"); reveal_strlit("CallHierarchyItemProvider"); }
            lemma_prefix_conflict("TextDocument"@, "CallHierarchyItemProvider"@, name, 0);
            assert("TextDocument"@[0] != "CallHierarchyOutgoingCall"@[0] && 0 < "TextDocument"@.len() && 0 < "CallHierarchyOutgoingCall"@.len()) by { reveal_strlit("TextDocument"); reveal_strlit("CallHierarchyOutgoingCall"); }
            lemma_prefix_conflict("TextDocument"@, "CallHierarchyOutgoingCall"@, name, 0);
            assert("TextDocument"@[0] != "CodeActionProvider"@[0] && 0 < "TextDocument"@.len() && 0 < "CodeActionProvider"@.len()) by { reveal_strlit("TextDocument"); reveal_strlit("CodeActionProvider"); }
            lemma_prefix_conflict("TextDocument"@, "CodeActionProvider"@, name, 0);
            assert("TextDocument"@[0] != "ColorPresentation"@[0] && 0 < "TextDocument"@.len() && 0 < "ColorPresentation"@.len()) by { reveal_strlit("TextDocument"); reveal_strlit("ColorPresentation"); }
            lemma_prefix_conflict("TextDocument"@, "ColorPresentation"@, name, 0);
            assert("TextDocument"@[0] != "CompletionItem"@[0] && 0 < "TextDocument"@.len() && 0 < "CompletionItem"@.len()) by { reveal_strlit("TextDocument"); reveal_strlit("CompletionItem"); }
            lemma_prefix_conflict("TextDocument"@, "CompletionItem"@, name, 0);
            assert("TextDocument"@[0] != "DocumentHighlightKind"@[0] && 0 < "TextDocument"@.len() && 0 < "DocumentHighlightKind"@.len()) by { reveal_strlit("TextDocument"); reveal_strlit("DocumentHighlightKind"); }
            lemma_prefix_conflict("TextDocument"@, "DocumentHighlightKind"@, name, 0);
            assert("TextDocument"@[0] != "InlineCompletionItem"@[0] && 0 < "TextDocument"@.len() && 0 < "InlineCompletionItem"@.len()) by { reveal_strlit("TextDocument"); reveal_strlit("InlineCompletionItem"); }
            lemma_prefix_conflict("TextDocument"@, "InlineCompletionItem"@, name, 0);
    }
    if "TypeHierarchyItem"@.is_prefix_of(name) {
            assert("TypeHierarchyItem"@[0] != "CodeActionRequest"@[0] && 0 < "TypeHierarchyItem"@.len() && 0 < "CodeActionRequest"@.len()) by { reveal_strlit("TypeHierarchyItem"); reveal_strlit("CodeActionRequest"); }
            lemma_prefix_conflict("TypeHierarchyItem"@, "CodeActionRequest"@, name, 0);
            assert("TypeHierarchyItem"@[0] != "CodeLensRequest"@[0] && 0 < "TypeHierarchyItem"@.len() && 0 < "CodeLensRequest"@.len()) by { reveal_strlit("TypeHierarchyItem"); reveal_strlit("CodeLensRequest"); }
            lemma_prefix_conflict("TypeHierarchyItem"@, "CodeLensRequest"@, name, 0);
            assert("TypeHierarchyItem"@[0] != "CodeLensResolveRequest"@[0] && 0 < "TypeHierarchyItem"@.len() && 0 < "CodeLensResolveRequest"@.len()) by { reveal_strlit("TypeHierarchyItem"); reveal_strlit("CodeLensResolveRequest"); }
            lemma_prefix_conflict("TypeHierarchyItem"@, "CodeLensResolveRequest"@, name, 0);
            assert("TypeHierarchyItem"@[0] != "ColorPresentationRequest"@[0] && 0 < "TypeHierarchyItem"@.len() && 0 < "ColorPresentationRequest"@.len()) by { reveal_strlit("TypeHierarchyItem"); reveal_strlit("ColorPresentationRequest"); }
            lemma_prefix_conflict("TypeHierarchyItem"@, "ColorPresentationRequest"@, name, 0);
            assert("TypeHierarchyItem"@[0] != "CompletionRequest"@[0] && 0 < "TypeHierarchyItem"@.len() && 0 < "CompletionRequest"@.len()) by { reveal_strlit("TypeHierarchyItem"); reveal_strlit("CompletionRequest"); }
            lemma_prefix_conflict("TypeHierarchyItem"@, "CompletionRequest"@, name, 0);
            assert("TypeHierarchyItem"@[0] != "CompletionResolveRequest"@[0] && 0 < "TypeHierarchyItem"@.len() && 0 < "CompletionResolveRequest"@.len()) by { reveal_strlit("TypeHierarchyItem"); reveal_strlit("CompletionResolveRequest"); }
            lemma_prefix_conflict("TypeHierarchyItem"@, "CompletionResolveRequest"@, name, 0);
            assert("TypeHierarchyItem"@[0] != "DefinitionRequest"@[0] && 0 < "TypeHierarchyItem"@.len() && 0 < "DefinitionRequest"@.len()) by { reveal_strlit("TypeHierarchyItem"); reveal_strlit("DefinitionRequest"); }
            lemma_prefix_conflict("TypeHierarchyItem"@, "DefinitionRequest"@, name, 0);
            assert("TypeHierarchyItem"@[0] != "DocumentColorRequest"@[0] && 0 < "TypeHierarchyItem"@.len() && 0 < "DocumentColorRequest"@.len()) by { reveal_strlit("TypeHierarchyItem"); reveal_strlit("DocumentColorRequest"); }
            lemma_prefix_conflict("TypeHierarchyItem"@, "DocumentColorRequest"@, name, 0);
            assert("TypeHierarchyItem"@[0] != "DocumentFormattingRequest"@[0] && 0 < "TypeHierarchyItem"@.len() && 0 < "DocumentFormattingRequest"@.len()) by { reveal_strlit("TypeHierarchyItem"); reveal_strlit("DocumentFormattingRequest"); }
            lemma_prefix_conflict("TypeHierarchyItem"@, "DocumentFormattingRequest"@, name, 0);
            assert("TypeHierarchyItem"@[0] != "DocumentHighlightRequest"@[0] && 0 < "TypeHierarchyItem"@.len() && 0 < "DocumentHighlightRequest"@.len()) by { reveal_strlit("TypeHierarchyItem"); reveal_strlit("DocumentHighlightRequest"); }
            lemma_prefix_conflict("TypeHierarchyItem"@, "DocumentHighlightRequest"@, name, 0);
            assert("TypeHierarchyItem"@[0] != "DocumentLinkRequest"@[0] && 0 < "TypeHierarchyItem"@.len() && 0 < "DocumentLinkRequest"@.len()) by { reveal_strlit("TypeHierarchyItem"); reveal_strlit("DocumentLinkRequest"); }
            lemma_prefix_conflict("TypeHierarchyItem"@, "DocumentLinkRequest"@, name, 0);
            assert("TypeHierarchyItem"@[0] != "DocumentOnTypeFormattingRequest"@[0] && 0 < "TypeHierarchyItem"@.len() && 0 < "DocumentOnTypeFormattingRequest"@.len()) by { reveal_strlit("TypeHierarchyItem"); reveal_strlit("DocumentOnTypeFormattingRequest"); }
            lemma_prefix_conflict("TypeHierarchyItem"@, "DocumentOnTypeFormattingRequest"@, name, 0);
            assert("TypeHierarchyItem"@[0] != "DocumentRangeFormattingRequest"@[0] && 0 < "TypeHierarchyItem"@.len() && 0 < "DocumentRangeFormattingRequest"@.len()) by { reveal_strlit("TypeHierarchyItem"); reveal_strlit("DocumentRangeFormattingRequest"); }
            lemma_prefix_conflict("TypeHierarchyItem"@, "DocumentRangeFormattingRequest"@, name, 0);
            assert("TypeHierarchyItem"@[0] != "DocumentRangesFormattingRequest"@[0] && 0 < "TypeHierarchyItem"@.len() && 0 < "DocumentRangesFormattingRequest"@.len()) by { reveal_strlit("TypeHierarchyItem"); reveal_strlit("DocumentRangesFormattingRequest"); }
            lemma_prefix_conflict("TypeHierarchyItem"@, "DocumentRangesFormattingRequest"@, name, 0);
            assert("TypeHierarchyItem"@[0] != "DocumentSymbolRequest"@[0] && 0 < "TypeHierarchyItem"@.len() && 0 < "DocumentSymbolRequest"@.len()) by { reveal_strlit("TypeHierarchyItem"); reveal_strlit("DocumentSymbolRequest"); }
            lemma_prefix_conflict("TypeHierarchyItem"@, "DocumentSymbolRequest"@, name, 0);
            assert("TypeHierarchyItem"@[0] != "ExecuteCommandRequest"@[0] && 0 < "TypeHierarchyItem"@.len() && 0 < "ExecuteCommandRequest"@.len()) by { reveal_strlit("TypeHierarchyItem"); reveal_strlit("ExecuteCommandRequest"); }
            lemma_prefix_conflict("TypeHierarchyItem"@, "ExecuteCommandRequest"@, name, 0);
            assert("TypeHierarchyItem"@[0] != "FoldingRangeList"@[0] && 0 < "TypeHierarchyItem"@.len() && 0 < "FoldingRangeList"@.len()) by { reveal_strlit("TypeHierarchyItem"); reveal_strlit("FoldingRangeList"); }
            lemma_prefix_conflict("TypeHierarchyItem"@, "FoldingRangeList"@, name, 0);
            assert("TypeHierarchyItem"@[0] != "FoldingRangeRequest"@[0] && 0 < "TypeHierarchyItem"@.len() && 0 < "FoldingRangeRequest"@.len()) by { reveal_strlit("TypeHierarchyItem"); reveal_strlit("FoldingRangeRequest"); }
            lemma_prefix_conflict("TypeHierarchyItem"@, "FoldingRangeRequest"@, name, 0);
            assert("TypeHierarchyItem"@[0] != "HoverRequest"@[0] && 0 < "TypeHierarchyItem"@.len() && 0 < "HoverRequest"@.len()) by { reveal_strlit("TypeHierarchyItem"); reveal_strlit("HoverRequest"); }
            lemma_prefix_conflict("TypeHierarchyItem"@, "HoverRequest"@, name, 0);
            assert("TypeHierarchyItem"@[0] != "InlayHintsParams"@[0] && 0 < "TypeHierarchyItem"@.len() && 0 < "InlayHintsParams"@.len()) by { reveal_strlit("TypeHierarchyItem"); reveal_strlit("InlayHintsParams"); }
            lemma_prefix_conflict("TypeHierarchyItem"@, "InlayHintsParams"@, name, 0);
            assert("TypeHierarchyItem"@[0] != "InlineCompletion"@[0] && 0 < "TypeHierarchyItem"@.len() && 0 < "InlineCompletion"@.len()) by { reveal_strlit("TypeHierarchyItem"); reveal_strlit("InlineCompletion"); }
            lemma_prefix_conflict("TypeHierarchyItem"@, "InlineCompletion"@, name, 0);
            assert("TypeHierarchyItem"@[0] != "ReferencesRequest"@[0] && 0 < "TypeHierarchyItem"@.len() && 0 < "ReferencesRequest"@.len()) by { reveal_strlit("TypeHierarchyItem"); reveal_strlit("ReferencesRequest"); }
            lemma_prefix_conflict("TypeHierarchyItem"@, "ReferencesRequest"@, name, 0);
            assert("TypeHierarchyItem"@[0] != "RenameRequest"@[0] && 0 < "TypeHierarchyItem"@.len() && 0 < "RenameRequest"@.len()) by { reveal_strlit("TypeHierarchyItem"); reveal_strlit("RenameRequest"); }
            lemma_prefix_conflict("TypeHierarchyItem"@, "RenameRequest"@, name, 0);
            assert("TypeHierarchyItem"@[0] != "ResponseError"@[0] && 0 < "TypeHierarchyItem"@.len() && 0 < "ResponseError"@.len()) by { reveal_strlit("TypeHierarchyItem"); reveal_strlit("ResponseError"); }
            lemma_prefix_conflict("TypeHierarchyItem"@, "ResponseError"@, name, 0);
            assert("TypeHierarchyItem"@[0] != "SignatureHelpRequest"@[0] && 0 < "TypeHierarchyItem"@.len() && 0 < "SignatureHelpRequest"@.len()) by { reveal_strlit("TypeHierarchyItem"); reveal_strlit("SignatureHelpRequest"); }
            lemma_prefix_conflict("TypeHierarchyItem"@, "SignatureHelpRequest"@, name, 0);
            assert("TypeHierarchyItem"@[1] != "TextDocumentPosition"@[1] && 1 < "TypeHierarchyItem"@.len() && 1 < "TextDocumentPosition"@.len()) by { reveal_strlit("TypeHierarchyItem"); reveal_strlit("TextDocumentPosition"); }
            lemma_prefix_conflict("TypeHierarchyItem"@, "TextDocumentPosition"@, name, 1);
            assert("TypeHierarchyItem"@[0] != "WorkspaceSymbolRequest"@[0] && 0 < "TypeHierarchyItem"@.len() && 0 < "WorkspaceSymbolRequest"@.len()) by { reveal_strlit("TypeHierarchyItem"); reveal_strlit("WorkspaceSymbolRequest"); }
            lemma_prefix_conflict("TypeHierarchyItem"@, "WorkspaceSymbolRequest"@, name, 0);
            assert("TypeHierarchyItem"@[0] != "CallHierarchyIncomingCall"@[0] && 0 < "TypeHierarchyItem"@.len() && 0 < "CallHierarchyIncomingCall"@.len()) by { reveal_strlit("TypeHierarchyItem"); reveal_strlit("CallHierarchyIncomingCall"); }
            lemma_prefix_conflict("TypeHierarchyItem"@, "CallHierarchyIncomingCall"@, name, 0);
            assert("TypeHierarchyItem"@[0] != "CallHierarchyItem"@[0] && 0 < "TypeHierarchyItem"@.len() && 0 < "CallHierarchyItem"@.len()) by { reveal_strlit("TypeHierarchyItem"); reveal_strlit("CallHierarchyItem"); }
            lemma_prefix_conflict("TypeHierarchyItem"@, "CallHierarchyItem"@, name, 0);
            assert("TypeHierarchyItem"@[0] != "CallHierarchyItemProvider"@[0] && 0 < "TypeHierarchyItem"@.len() && 0 < "CallHierarchyItemProvider"@.len()) by { reveal_strlit("TypeHierarchyItem"); reveal_strlit("CallHierarchyItemProvider"); }
            lemma_prefix_conflict("TypeHierarchyItem"@, "CallHierarchyItemProvider"@, name, 0);
            assert("TypeHierarchyItem"@[0] != "CallHierarchyOutgoingCall"@[0] && 0 < "TypeHierarchyItem"@.len() && 0 < "CallHierarchyOutgoingCall"@.len()) by { reveal_strlit("TypeHierarchyItem"); reveal_strlit("CallHierarchyOutgoingCall"); }
            lemma_prefix_conflict("TypeHierarchyItem"@, "CallHierarchyOutgoingCall"@, name, 0);
            assert("TypeHierarchyItem"@[0] != "CodeActionProvider"@[0] && 0 < "TypeHierarchyItem"@.len() && 0 < "CodeActionProvider"@.len()) by { reveal_strlit("TypeHierarchyItem"); reveal_strlit("CodeActionProvider"); }
            lemma_prefix_conflict("TypeHierarchyItem"@, "CodeActionProvider"@, name, 0);
            assert("TypeHierarchyItem"@[0] != "ColorPresentation"@[0] && 0 < "TypeHierarchyItem"@.len() && 0 < "ColorPresentation"@.len()) by { reveal_strlit("TypeHierarchyItem"); reveal_strlit("ColorPresentation"); }
            lemma_prefix_conflict("TypeHierarchyItem"@, "ColorPresentation"@, name, 0);
            assert("TypeHierarchyItem"@[0] != "CompletionItem"@[0] && 0 < "TypeHierarchyItem"@.len() && 0 < "CompletionItem"@.len()) by { reveal_strlit("TypeHierarchyItem"); reveal_strlit("CompletionItem"); }
            lemma_prefix_conflict("TypeHierarchyItem"@, "CompletionItem"@, name, 0);
            assert("TypeHierarchyItem"@[0] != "DocumentHighlightKind"@[0] && 0 < "TypeHierarchyItem"@.len() && 0 < "DocumentHighlightKind"@.len()) by { reveal_strlit("TypeHierarchyItem"); reveal_strlit("DocumentHighlightKind"); }
            lemma_prefix_conflict("TypeHierarchyItem"@, "DocumentHighlightKind"@, name, 0);
            assert("TypeHierarchyItem"@[0] != "InlineCompletionItem"@[0] && 0 < "TypeHierarchyItem"@.len() && 0 < "InlineCompletionItem"@.len()) by { reveal_strlit("TypeHierarchyItem"); reveal_strlit("InlineCompletionItem"); }
            lemma_prefix_conflict("TypeHierarchyItem"@, "InlineCompletionItem"@, name, 0);
            assert("TypeHierarchyItem"@[1] != "TextDocument"@[1] && 1 < "TypeHierarchyItem"@.len() && 1 < "TextDocument"@.len()) by { reveal_strlit("TypeHierarchyItem"); reveal_strlit("TextDocument"); }
            lemma_prefix_conflict("TypeHierarchyItem"@, "TextDocument"@, name, 1);
    }
    if "Uri"@.is_prefix_of(name) {
            assert("Uri"@[0] != "CodeActionRequest"@[0] && 0 < "Uri"@.len() && 0 < "CodeActionRequest"@.len()) by { reveal_strlit("Uri"); reveal_strlit("CodeActionRequest"); }
            lemma_prefix_conflict("Uri"@, "CodeActionRequest"@, name, 0);
            assert("Uri"@[0] != "CodeLensRequest"@[0] && 0 < "Uri"@.len() && 0 < "CodeLensRequest"@.len()) by { reveal_strlit("Uri"); reveal_strlit("CodeLensRequest"); }
            lemma_prefix_conflict("Uri"@, "CodeLensRequest"@, name, 0);
            assert("Uri"@[0] != "CodeLensResolveRequest"@[0] && 0 < "Uri"@.len() && 0 < "CodeLensResolveRequest"@.len()) by { reveal_strlit("Uri"); reveal_strlit("CodeLensResolveRequest"); }
            lemma_prefix_conflict("Uri"@, "CodeLensResolveRequest"@, name, 0);
            assert("Uri"@[0] != "ColorPresentationRequest"@[0] && 0 < "Uri"@.len() && 0 < "ColorPresentationRequest"@.len()) by { reveal_strlit("Uri"); reveal_strlit("ColorPresentationRequest"); }
            lemma_prefix_conflict("Uri"@, "ColorPresentationRequest"@, name, 0);
            assert("Uri"@[0] != "CompletionRequest"@[0] && 0 < "Uri"@.len() && 0 < "CompletionRequest"@.len()) by { reveal_strlit("Uri"); reveal_strlit("CompletionRequest"); }
            lemma_prefix_conflict("Uri"@, "CompletionRequest"@, name, 0);
            assert("Uri"@[0] != "CompletionResolveRequest"@[0] && 0 < "Uri"@.len() && 0 < "CompletionResolveRequest"@.len()) by { reveal_strlit("Uri"); reveal_strlit("CompletionResolveRequest"); }
            lemma_prefix_conflict("Uri"@, "CompletionResolveRequest"@, name, 0);
            assert("Uri"@[0] != "DefinitionRequest"@[0] && 0 < "Uri"@.len() && 0 < "DefinitionRequest"@.len()) by { reveal_strlit("Uri"); reveal_strlit("DefinitionRequest"); }
            lemma_prefix_conflict("Uri"@, "DefinitionRequest"@, name, 0);
            assert("Uri"@[0] != "DocumentColorRequest"@[0] && 0 < "Uri"@.len() && 0 < "DocumentColorRequest"@.len()) by { reveal_strlit("Uri"); reveal_strlit("DocumentColorRequest"); }
            lemma_prefix_conflict("Uri"@, "DocumentColorRequest"@, name, 0);
            assert("Uri"@[0] != "DocumentFormattingRequest"@[0] && 0 < "Uri"@.len() && 0 < "DocumentFormattingRequest"@.len()) by { reveal_strlit("Uri"); reveal_strlit("DocumentFormattingRequest"); }
            lemma_prefix_conflict("Uri"@, "DocumentFormattingRequest"@, name, 0);
            assert("Uri"@[0] != "DocumentHighlightRequest"@[0] && 0 < "Uri"@.len() && 0 < "DocumentHighlightRequest"@.len()) by { reveal_strlit("Uri"); reveal_strlit("DocumentHighlightRequest"); }
            lemma_prefix_conflict("Uri"@, "DocumentHighlightRequest"@, name, 0);
            assert("Uri"@[0] != "DocumentLinkRequest"@[0] && 0 < "Uri"@.len() && 0 < "DocumentLinkRequest"@.len()) by { reveal_strlit("Uri"); reveal_strlit("DocumentLinkRequest"); }
            lemma_prefix_conflict("Uri"@, "DocumentLinkRequest"@, name, 0);
            assert("Uri"@[0] != "DocumentOnTypeFormattingRequest"@[0] && 0 < "Uri"@.len() && 0 < "DocumentOnTypeFormattingRequest"@.len()) by { reveal_strlit("Uri"); reveal_strlit("DocumentOnTypeFormattingRequest"); }
            lemma_prefix_conflict("Uri"@, "DocumentOnTypeFormattingRequest"@, name, 0);
            assert("Uri"@[0] != "DocumentRangeFormattingRequest"@[0] && 0 < "Uri"@.len() && 0 < "DocumentRangeFormattingRequest"@.len()) by { reveal_strlit("Uri"); reveal_strlit("DocumentRangeFormattingRequest"); }
            lemma_prefix_conflict("Uri"@, "DocumentRangeFormattingRequest"@, name, 0);
            assert("Uri"@[0] != "DocumentRangesFormattingRequest"@[0] && 0 < "Uri"@.len() && 0 < "DocumentRangesFormattingRequest"@.len()) by { reveal_strlit("Uri"); reveal_strlit("DocumentRangesFormattingRequest"); }
            lemma_prefix_conflict("Uri"@, "DocumentRangesFormattingRequest"@, name, 0);
            assert("Uri"@[0] != "DocumentSymbolRequest"@[0] && 0 < "Uri"@.len() && 0 < "DocumentSymbolRequest"@.len()) by { reveal_strlit("Uri"); reveal_strlit("DocumentSymbolRequest"); }
            lemma_prefix_conflict("Uri"@, "DocumentSymbolRequest"@, name, 0);
            assert("Uri"@[0] != "ExecuteCommandRequest"@[0] && 0 < "Uri"@.len() && 0 < "ExecuteCommandRequest"@.len()) by { reveal_strlit("Uri"); reveal_strlit("ExecuteCommandRequest"); }
            lemma_prefix_conflict("Uri"@, "ExecuteCommandRequest"@, name, 0);
            assert("Uri"@[0] != "FoldingRangeList"@[0] && 0 < "Uri"@.len() && 0 < "FoldingRangeList"@.len()) by { reveal_strlit("Uri"); reveal_strlit("FoldingRangeList"); }
            lemma_prefix_conflict("Uri"@, "FoldingRangeList"@, name, 0);
            assert("Uri"@[0] != "FoldingRangeRequest"@[0] && 0 < "Uri"@.len() && 0 < "FoldingRangeRequest"@.len()) by { reveal_strlit("Uri"); reveal_strlit("FoldingRangeRequest"); }
            lemma_prefix_conflict("Uri"@, "FoldingRangeRequest"@, name, 0);
            assert("Uri"@[0] != "HoverRequest"@[0] && 0 < "Uri"@.len() && 0 < "HoverRequest"@.len()) by { reveal_strlit("Uri"); reveal_strlit("HoverRequest"); }
            lemma_prefix_conflict("Uri"@, "HoverRequest"@, name, 0);
            assert("Uri"@[0] != "InlayHintsParams"@[0] && 0 < "Uri"@.len() && 0 < "InlayHintsParams"@.len()) by { reveal_strlit("Uri"); reveal_strlit("InlayHintsParams"); }
            lemma_prefix_conflict("Uri"@, "InlayHintsParams"@, name, 0);
            assert("Uri"@[0] != "InlineCompletion"@[0] && 0 < "Uri"@.len() && 0 < "InlineCompletion"@.len()) by { reveal_strlit("Uri"); reveal_strlit("InlineCompletion"); }
            lemma_prefix_conflict("Uri"@, "InlineCompletion"@, name, 0);
            assert("Uri"@[0] != "ReferencesRequest"@[0] && 0 < "Uri"@.len() && 0 < "ReferencesRequest"@.len()) by { reveal_strlit("Uri"); reveal_strlit("ReferencesRequest"); }
            lemma_prefix_conflict("Uri"@, "ReferencesRequest"@, name, 0);
            assert("Uri"@[0] != "RenameRequest"@[0] && 0 < "Uri"@.len() && 0 < "RenameRequest"@.len()) by { reveal_strlit("Uri"); reveal_strlit("RenameRequest"); }
            lemma_prefix_conflict("Uri"@, "RenameRequest"@, name, 0);
            assert("Uri"@[0] != "ResponseError"@[0] && 0 < "Uri"@.len() && 0 < "ResponseError"@.len()) by { reveal_strlit("Uri"); reveal_strlit("ResponseError"); }
            lemma_prefix_conflict("Uri"@, "ResponseError"@, name, 0);
            assert("Uri"@[0] != "SignatureHelpRequest"@[0] && 0 < "Uri"@.len() && 0 < "SignatureHelpRequest"@.len()) by { reveal_strlit("Uri"); reveal_strlit("SignatureHelpRequest"); }
            lemma_prefix_conflict("Uri"@, "SignatureHelpRequest"@, name, 0);
            assert("Uri"@[0] != "TextDocumentPosition"@[0] && 0 < "Uri"@.len() && 0 < "TextDocumentPosition"@.len()) by { reveal_strlit("Uri"); reveal_strlit("TextDocumentPosition"); }
            lemma_prefix_conflict("Uri"@, "TextDocumentPosition"@, name, 0);
            assert("Uri"@[0] != "WorkspaceSymbolRequest"@[0] && 0 < "Uri"@.len() && 0 < "WorkspaceSymbolRequest"@.len()) by { reveal_strlit("Uri"); reveal_strlit("WorkspaceSymbolRequest"); }
            lemma_prefix_conflict("Uri"@, "WorkspaceSymbolRequest"@, name, 0);
            assert("Uri"@[0] != "CallHierarchyIncomingCall"@[0] && 0 < "Uri"@.len() && 0 < "CallHierarchyIncomingCall"@.len()) by { reveal_strlit("Uri"); reveal_strlit("CallHierarchyIncomingCall"); }
            lemma_prefix_conflict("Uri"@, "CallHierarchyIncomingCall"@, name, 0);
            assert("Uri"@[0] != "CallHierarchyItem"@[0] && 0 < "Uri"@.len() && 0 < "CallHierarchyItem"@.len()) by { reveal_strlit("Uri"); reveal_strlit("CallHierarchyItem"); }
            lemma_prefix_conflict("Uri"@, "CallHierarchyItem"@, name, 0);
            assert("Uri"@[0] != "CallHierarchyItemProvider"@[0] && 0 < "Uri"@.len() && 0 < "CallHierarchyItemProvider"@.len()) by { reveal_strlit("Uri"); reveal_strlit("CallHierarchyItemProvider"); }
            lemma_prefix_conflict("Uri"@, "CallHierarchyItemProvider"@, name, 0);
            assert("Uri"@[0] != "CallHierarchyOutgoingCall"@[0] && 0 < "Uri"@.len() && 0 < "CallHierarchyOutgoingCall"@.len()) by { reveal_strlit("Uri"); reveal_strlit("CallHierarchyOutgoingCall"); }
            lemma_prefix_conflict("Uri"@, "CallHierarchyOutgoingCall"@, name, 0);
            assert("Uri"@[0] != "CodeActionProvider"@[0] && 0 < "Uri"@.len() && 0 < "CodeActionProvider"@.len()) by { reveal_strlit("Uri"); reveal_strlit("CodeActionProvider"); }
            lemma_prefix_conflict("Uri"@, "CodeActionProvider"@, name, 0);
            assert("Uri"@[0] != "ColorPresentation"@[0] && 0 < "Uri"@.len() && 0 < "ColorPresentation"@.len()) by { reveal_strlit("Uri"); reveal_strlit("ColorPresentation"); }
            lemma_prefix_conflict("Uri"@, "ColorPresentation"@, name, 0);
            assert("Uri"@[0] != "CompletionItem"@[0] && 0 < "Uri"@.len() && 0 < "CompletionItem"@.len()) by { reveal_strlit("Uri"); reveal_strlit("CompletionItem"); }
            lemma_prefix_conflict("Uri"@, "CompletionItem"@, name, 0);
            assert("Uri"@[0] != "DocumentHighlightKind"@[0] && 0 < "Uri"@.len() && 0 < "DocumentHighlightKind"@.len()) by { reveal_strlit("Uri"); reveal_strlit("DocumentHighlightKind"); }
            lemma_prefix_conflict("Uri"@, "DocumentHighlightKind"@, name, 0);
            assert("Uri"@[0] != "InlineCompletionItem"@[0] && 0 < "Uri"@.len() && 0 < "InlineCompletionItem"@.len()) by { reveal_strlit("Uri"); reveal_strlit("InlineCompletionItem"); }
            lemma_prefix_conflict("Uri"@, "InlineCompletionItem"@, name, 0);
            assert("Uri"@[0] != "TextDocument"@[0] && 0 < "Uri"@.len() && 0 < "TextDocument"@.len()) by { reveal_strlit("Uri"); reveal_strlit("TextDocument"); }
            lemma_prefix_conflict("Uri"@, "TextDocument"@, name, 0);
            assert("Uri"@[0] != "TypeHierarchyItem"@[0] && 0 < "Uri"@.len() && 0 < "TypeHierarchyItem"@.len()) by { reveal_strlit("Uri"); reveal_strlit("TypeHierarchyItem"); }
            lemma_prefix_conflict("Uri"@, "TypeHierarchyItem"@, name, 0);
    }
}

/// The Rust names of the notifications' methods.
pub open spec fn notification_names(spec: &Spec) -> Set<Seq<char>> {
    Set::new(
        |s: Seq<char>|
            exists|i: int|
                0 <= i < spec.notifications@.len() && rpc_name(spec.notifications@[i].method@) == s,
    )
}

/// The names of the structures, enumerations and type aliases.
pub open spec fn type_names(spec: &Spec) -> Set<Seq<char>> {
    Set::new(
        |s: Seq<char>|
            (exists|i: int| 0 <= i < spec.structures@.len() && spec.structures@[i].name@ == s) || (
            exists|i: int| 0 <= i < spec.enumerations@.len() && spec.enumerations@[i].name@ == s)
                || (exists|i: int|
                0 <= i < spec.type_aliases@.len() && spec.type_aliases@[i].name@ == s),
    )
}

/// Adds `name` unless it is there already.
fn insert_name(v: &mut Vec<String>, name: String)
    requires
        distinct_names(old(v)@),
    ensures
        distinct_names(final(v)@),
        name_set(final(v)@) == name_set(old(v)@).insert(name@),
{
    if contains_name(v, name.as_str()) {
        assert(name_set(v@) =~= name_set(v@).insert(name@));
    } else {
        v.push(name);
        let ghost old_set = name_set(old(v)@);
        assert forall|s: Seq<char>| #[trigger] name_set(v@).contains(s) == old_set.insert(name@).contains(s) by {
            if old_set.contains(s) {
                let i = choose|i: int| 0 <= i < old(v)@.len() && old(v)@[i]@ == s;
                assert(v@[i] == old(v)@[i]);
            }
            if name_set(v@).contains(s) {
                let i = choose|i: int| 0 <= i < v@.len() && v@[i]@ == s;
                if i < old(v)@.len() {
                    assert(old(v)@[i] == v@[i]);
                }
            }
            if s == name@ {
                assert(v@[v@.len() - 1]@ == name@);
            }
        }
        assert(name_set(v@) =~= old_set.insert(name@));
    }
}

/// Whether `v` holds `name`.
fn contains_name(v: &Vec<String>, name: &str) -> (r: bool)
    ensures
        r == name_set(v@).contains(name@),
{
    let mut i: usize = 0;
    while i < v.len()
        invariant
            i <= v@.len(),
            forall|j: int| 0 <= j < i ==> v@[j]@ != name@,
        decreases v@.len() - i,
    {
        if str_eq(v[i].as_str(), name) {
            return true;
        }
        i = i + 1;
    }
    false
}

/// Where a name not defined by the meta model itself is found, as
/// `fallback_path` says.
fn fallback(name: &str) -> (r: Option<String>)
    ensures
        match r {
            Some(path) => fallback_path(name@) == Some(path@),
            None => fallback_path(name@) is None,
        },
{
    if str_eq(name, "CodeActionRequest") {
        return Some(String::from_str("crate::request::TextDocumentCodeAction"));
    }
    if str_eq(name, "CodeLensRequest") {
        return Some(String::from_str("crate::request::TextDocumentCodeLens"));
    }
    if str_eq(name, "CodeLensResolveRequest") {
        return Some(String::from_str("crate::request::CodeLensResolve"));
    }
    if str_eq(name, "ColorPresentationRequest") {
        return Some(String::from_str("crate::request::TextDocumentColorPresentation"));
    }
    if str_eq(name, "CompletionRequest") {
        return Some(String::from_str("crate::request::TextDocumentCompletion"));
    }
    if str_eq(name, "CompletionResolveRequest") {
        return Some(String::from_str("crate::request::CompletionItemResolve"));
    }
    if str_eq(name, "DefinitionRequest") {
        return Some(String::from_str("crate::request::TextDocumentDefinition"));
    }
    if str_eq(name, "DocumentColorRequest") {
        return Some(String::from_str("crate::request::TextDocumentDocumentColor"));
    }
    if str_eq(name, "DocumentFormattingRequest") {
        return Some(String::from_str("crate::request::TextDocumentFormatting"));
    }
    if str_eq(name, "DocumentHighlightRequest") {
        return Some(String::from_str("crate::request::TextDocumentDocumentHighlight"));
    }
    if str_eq(name, "DocumentLinkRequest") {
        return Some(String::from_str("crate::request::TextDocumentDocumentLink"));
    }
    if str_eq(name, "DocumentOnTypeFormattingRequest") {
        return Some(String::from_str("crate::request::TextDocumentOnTypeFormatting"));
    }
    if str_eq(name, "DocumentRangeFormattingRequest") {
        return Some(String::from_str("crate::request::TextDocumentRangeFormatting"));
    }
    if str_eq(name, "DocumentRangesFormattingRequest") {
        return Some(String::from_str("crate::request::TextDocumentRangesFormatting"));
    }
    if str_eq(name, "DocumentSymbolRequest") {
        return Some(String::from_str("crate::request::TextDocumentDocumentSymbol"));
    }
    if str_eq(name, "ExecuteCommandRequest") {
        return Some(String::from_str("crate::request::WorkspaceExecuteCommand"));
    }
    if str_eq(name, "FoldingRangeList") {
        return Some(String::from_str("crate::FoldingRange"));
    }
    if str_eq(name, "FoldingRangeRequest") {
        return Some(String::from_str("crate::request::TextDocumentFoldingRange"));
    }
    if str_eq(name, "HoverRequest") {
        return Some(String::from_str("crate::request::TextDocumentHover"));
    }
    if str_eq(name, "InlayHintsParams") {
        return Some(String::from_str("InlayHintParams"));
    }
    if str_eq(name, "InlineCompletion") {
        return Some(String::from_str("InlineCompletionItem"));
    }
    if str_eq(name, "ReferencesRequest") {
        return Some(String::from_str("crate::request::TextDocumentReferences"));
    }
    if str_eq(name, "RenameRequest") {
        return Some(String::from_str("crate::request::TextDocumentRename"));
    }
    if str_eq(name, "ResponseError") {
        return Some(String::from_str(""));
    }
    if str_eq(name, "SignatureHelpRequest") {
        return Some(String::from_str("crate::request::TextDocumentSignatureHelp"));
    }
    if str_eq(name, "TextDocumentPosition") {
        return Some(String::from_str("TextDocumentPositionParams"));
    }
    if str_eq(name, "WorkspaceSymbolRequest") {
        return Some(String::from_str("crate::request::WorkspaceSymbolRequest"));
    }
    if starts_with(name, "CallHierarchyIncomingCall") {
        return Some(String::from_str("crate::CallHierarchyIncomingCall"));
    }
    if starts_with(name, "CallHierarchyItem") {
        return Some(String::from_str("crate::CallHierarchyItem"));
    }
    if starts_with(name, "CallHierarchyItemProvider") {
        return Some(String::from_str("crate::CallHierarchyItemProvider"));
    }
    if starts_with(name, "CallHierarchyOutgoingCall") {
        return Some(String::from_str("crate::CallHierarchyOutgoingCall"));
    }
    if starts_with(name, "CodeActionProvider") {
        return Some(String::from_str("crate::request::TextDocumentCodeAction"));
    }
    if starts_with(name, "ColorPresentation") {
        return Some(String::from_str("crate::ColorPresentation"));
    }
    if starts_with(name, "CompletionItem") {
        return Some(String::from_str("crate::CompletionItem"));
    }
    if starts_with(name, "DocumentHighlightKind") {
        return Some(String::from_str("crate::DocumentHighlightKind"));
    }
    if starts_with(name, "InlineCompletionItem") {
        return Some(String::from_str("crate::InlineCompletionItem"));
    }
    if starts_with(name, "TextDocument") {
        return Some(String::from_str("crate::TextDocumentIdentifier"));
    }
    if starts_with(name, "TypeHierarchyItem") {
        return Some(String::from_str("crate::TypeHierarchyItem"));
    }
    if starts_with(name, "Uri") {
        return Some(String::from_str("String"));
    }
    None
}

impl Names {
    /// The names of the requests.
    pub closed spec fn requests(&self) -> Set<Seq<char>> {
        name_set(self.request@)
    }

    /// The names of the notifications.
    pub closed spec fn notifications(&self) -> Set<Seq<char>> {
        name_set(self.notification@)
    }

    /// The names of the items at the crate root.
    pub closed spec fn roots(&self) -> Set<Seq<char>> {
        name_set(self.root@)
    }

    #[verifier::type_invariant]
    spec fn distinct(&self) -> bool {
        &&& distinct_names(self.root@)
        &&& distinct_names(self.notification@)
        &&& distinct_names(self.request@)
    }

    /// The names of the items the generator writes for the meta model `spec`:
    /// the Rust names of the notifications' methods, both as notifications and
    /// as requests, and the names of its types at the crate root.
    pub fn from_spec(spec: &Spec) -> (names: Names)
        ensures
            names.notifications() == notification_names(spec),
            names.requests() == notification_names(spec),
            names.roots() == type_names(spec),
    {
        let mut notification: Vec<String> = Vec::new();
        let mut request: Vec<String> = Vec::new();
        let mut i: usize = 0;
        assert(name_set(notification@) =~= Set::<Seq<char>>::empty());
        while i < spec.notifications.len()
            invariant
                i <= spec.notifications@.len(),
                distinct_names(notification@),
                distinct_names(request@),
                name_set(notification@) == Set::new(
                    |s: Seq<char>|
                        exists|j: int| 0 <= j < i && rpc_name(spec.notifications@[j].method@) == s,
                ),
                name_set(request@) == name_set(notification@),
            decreases spec.notifications@.len() - i,
        {
            let name = notification_name(spec.notifications[i].method.as_str());
            insert_name(&mut notification, name.clone());
            insert_name(&mut request, name);
            i = i + 1;
            assert(name_set(notification@) =~= Set::new(
                |s: Seq<char>|
                    exists|j: int| 0 <= j < i && rpc_name(spec.notifications@[j].method@) == s,
            )) by {
                assert forall|s: Seq<char>| #[trigger] name_set(notification@).contains(s) implies
                    exists|j: int| 0 <= j < i && rpc_name(spec.notifications@[j].method@) == s by {
                    if s != rpc_name(spec.notifications@[i - 1].method@) {
                        let j = choose|j: int| 0 <= j < i - 1 && rpc_name(spec.notifications@[j].method@) == s;
                    }
                }
            }
        }
        assert(name_set(notification@) =~= notification_names(spec));
        let mut root: Vec<String> = Vec::new();
        assert(name_set(root@) =~= Set::<Seq<char>>::empty());
        let mut i: usize = 0;
        while i < spec.structures.len()
            invariant
                i <= spec.structures@.len(),
                distinct_names(root@),
                name_set(root@) == Set::new(
                    |s: Seq<char>| exists|j: int| 0 <= j < i && spec.structures@[j].name@ == s,
                ),
            decreases spec.structures@.len() - i,
        {
            insert_name(&mut root, spec.structures[i].name.clone());
            i = i + 1;
            assert(name_set(root@) =~= Set::new(
                |s: Seq<char>| exists|j: int| 0 <= j < i && spec.structures@[j].name@ == s,
            )) by {
                assert forall|s: Seq<char>| #[trigger] name_set(root@).contains(s) implies
                    exists|j: int| 0 <= j < i && spec.structures@[j].name@ == s by {
                    if s != spec.structures@[i - 1].name@ {
                        let j = choose|j: int| 0 <= j < i - 1 && spec.structures@[j].name@ == s;
                    }
                }
            }
        }
        let ghost structs = name_set(root@);
        let mut i: usize = 0;
        while i < spec.enumerations.len()
            invariant
                i <= spec.enumerations@.len(),
                distinct_names(root@),
                name_set(root@) == structs + Set::new(
                    |s: Seq<char>| exists|j: int| 0 <= j < i && spec.enumerations@[j].name@ == s,
                ),
            decreases spec.enumerations@.len() - i,
        {
            insert_name(&mut root, spec.enumerations[i].name.clone());
            i = i + 1;
            assert(name_set(root@) =~= structs + Set::new(
                |s: Seq<char>| exists|j: int| 0 <= j < i && spec.enumerations@[j].name@ == s,
            )) by {
                assert forall|s: Seq<char>| #[trigger] name_set(root@).contains(s) && !structs.contains(s) implies
                    exists|j: int| 0 <= j < i && spec.enumerations@[j].name@ == s by {
                    if s != spec.enumerations@[i - 1].name@ {
                        let j = choose|j: int| 0 <= j < i - 1 && spec.enumerations@[j].name@ == s;
                    }
                }
            }
        }
        let ghost structs_enums = name_set(root@);
        let mut i: usize = 0;
        while i < spec.type_aliases.len()
            invariant
                i <= spec.type_aliases@.len(),
                distinct_names(root@),
                name_set(root@) == structs_enums + Set::new(
                    |s: Seq<char>| exists|j: int| 0 <= j < i && spec.type_aliases@[j].name@ == s,
                ),
            decreases spec.type_aliases@.len() - i,
        {
            insert_name(&mut root, spec.type_aliases[i].name.clone());
            i = i + 1;
            assert(name_set(root@) =~= structs_enums + Set::new(
                |s: Seq<char>| exists|j: int| 0 <= j < i && spec.type_aliases@[j].name@ == s,
            )) by {
                assert forall|s: Seq<char>| #[trigger] name_set(root@).contains(s) && !structs_enums.contains(s) implies
                    exists|j: int| 0 <= j < i && spec.type_aliases@[j].name@ == s by {
                    if s != spec.type_aliases@[i - 1].name@ {
                        let j = choose|j: int| 0 <= j < i - 1 && spec.type_aliases@[j].name@ == s;
                    }
                }
            }
        }
        assert(name_set(root@) =~= type_names(spec));
        Names { root, notification, request }
    }

    /// Whether `resolve` has a path for `name`.
    pub open spec fn resolves(&self, name: Seq<char>) -> bool {
        ||| self.requests().contains(name)
        ||| self.notifications().contains(name)
        ||| self.roots().contains(name)
        ||| fallback_path(name) is Some
    }

    /// The Rust path of `name`, as `resolved_path` says. A name that
    /// resolves to nothing is a bug of the generator (it panics there), so it
    /// is left out.
    pub fn resolve(&self, name: &str) -> (path: String)
        requires
            self.resolves(name@),
        ensures
            path@ == resolved_path(self.requests(), self.notifications(), self.roots(), name@),
    {
        if contains_name(&self.request, name) {
            let mut path = String::from_str("crate::request::");
            path.append(name);
            path
        } else if contains_name(&self.notification, name) {
            let mut path = String::from_str("crate::notification::");
            path.append(name);
            path
        } else if contains_name(&self.root, name) {
            let mut path = String::from_str("crate::");
            path.append(name);
            path
        } else {
            match fallback(name) {
                Some(path) => path,
                None => {
                    assert(false);
                    String::new()
                },
            }
        }
    }
}

impl Default for Names {
    /// No names.
    fn default() -> (names: Names)
        ensures
            names.requests() == Set::<Seq<char>>::empty(),
            names.notifications() == Set::<Seq<char>>::empty(),
            names.roots() == Set::<Seq<char>>::empty(),
    {
        let names = Names { root: Vec::new(), notification: Vec::new(), request: Vec::new() };
        assert(name_set(names.root@) =~= Set::<Seq<char>>::empty());
        assert(name_set(names.notification@) =~= Set::<Seq<char>>::empty());
        assert(name_set(names.request@) =~= Set::<Seq<char>>::empty());
        names
    }
}

} // verus!
