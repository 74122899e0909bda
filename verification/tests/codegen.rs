use lsp::codegen::{generate, generate_notifications, notification_name};
use lsp::generator::Generator;
use lsp::names::Names;
use lsp::spec::{
    BaseType, Enumeration, Literal, MessageDirection, Metadata, Notification, Property, Spec,
    Structure, Type, TypeAlias,
};
use lsp::{Or2, Or3};

#[test]
fn notification_name_works() {
    assert_eq!(
        notification_name("textDocument/publishDiagnostics"),
        "TextDocumentPublishDiagnostics"
    );
}

#[test]
fn notification_name_edge_cases() {
    assert_eq!(notification_name(""), "");
    assert_eq!(notification_name("$/cancelRequest"), "CancelRequest");
    assert_eq!(notification_name("exit"), "Exit");
    assert_eq!(notification_name("a_b-c9d"), "ABCD");
    // An upper-case letter does not end a word boundary.
    assert_eq!(notification_name("/Xy"), "XY");
    assert_eq!(notification_name("\u{e9}t\u{e9}"), "T");
}

fn notification(method: &str, doc: &str) -> Notification {
    Notification {
        method: method.to_string(),
        message_direction: MessageDirection::ClientToServer,
        params: None,
        documentation: doc.to_string(),
        since: None,
    }
}

#[test]
fn generator_writes() {
    let mut g = Generator::new("out.rs");
    assert_eq!(g.path(), "out.rs");
    assert_eq!(g.output(), "");
    g.write_comment("hello");
    g.write("fn x() {}");
    g.write_doc("one\ntwo\n\nthree\n");
    g.write_doc("");
    g.write_doc("\n");
    assert_eq!(g.output(), "// hello\nfn x() {}\n/// one\n/// two\n/// \n/// three\n/// \n");
    assert_eq!(g.path(), "out.rs");
}

#[test]
fn notifications_are_generated() {
    let mut g = Generator::new("n.rs");
    let ns = vec![notification("initialized", "Sent once.\nAfter init."), notification("$/x", "")];
    generate_notifications(&mut g, &ns);
    assert_eq!(
        g.output(),
        "//! LSP Notifications.\n\n/// Sent once.\n/// After init.\npub const Initialized: &str = \"initialized\";\npub const X: &str = \"$/x\";\n"
    );
}

fn sample_spec() -> Spec {
    Spec {
        meta_data: Metadata { version: "3.17.0".to_string() },
        requests: vec![],
        notifications: vec![notification("textDocument/didOpen", ""), notification("exit", "")],
        structures: vec![Structure {
            name: "Position".to_string(),
            properties: vec![],
            extends: vec![],
            mixins: vec![],
            documentation: String::new(),
            since: None,
        }],
        enumerations: vec![Enumeration {
            name: "SymbolKind".to_string(),
            ty: Type::Base { name: BaseType::Uinteger },
            values: vec![],
            supports_custom_values: false,
            documentation: String::new(),
            since: None,
        }],
        type_aliases: vec![TypeAlias {
            name: "LSPAny".to_string(),
            ty: Type::Base { name: BaseType::Null },
            documentation: String::new(),
            since: None,
        }],
    }
}

#[test]
fn generate_writes_both_files() {
    let (n, lib) = generate(&sample_spec());
    assert_eq!(n.path(), "src/notification.rs");
    assert_eq!(
        n.output(),
        "//! LSP Notifications.\n\npub const TextDocumentDidOpen: &str = \"textDocument/didOpen\";\npub const Exit: &str = \"exit\";\n"
    );
    assert_eq!(lib.path(), "src/lib.rs");
    assert_eq!(lib.output(), "pub mod notification;\n");
}

#[test]
fn names_resolve() {
    let names = Names::from_spec(&sample_spec());
    // Notification names are also taken as request names, which come first.
    assert_eq!(names.resolve("TextDocumentDidOpen"), "crate::request::TextDocumentDidOpen");
    assert_eq!(names.resolve("Exit"), "crate::request::Exit");
    assert_eq!(names.resolve("Position"), "crate::Position");
    assert_eq!(names.resolve("SymbolKind"), "crate::SymbolKind");
    assert_eq!(names.resolve("LSPAny"), "crate::LSPAny");
    assert_eq!(names.resolve("HoverRequest"), "crate::request::TextDocumentHover");
    assert_eq!(names.resolve("ResponseError"), "");
    assert_eq!(names.resolve("TextDocumentPosition"), "TextDocumentPositionParams");
    assert_eq!(names.resolve("TextDocumentItem"), "crate::TextDocumentIdentifier");
    assert_eq!(names.resolve("CallHierarchyItemProvider"), "crate::CallHierarchyItem");
    assert_eq!(names.resolve("UriList"), "String");
    assert_eq!(names.resolve("InlineCompletion"), "InlineCompletionItem");
    assert_eq!(names.resolve("InlineCompletionItemX"), "crate::InlineCompletionItem");
}

#[test]
fn is_null_works() {
    assert!(Type::Base { name: BaseType::Null }.is_null());
    assert!(!Type::Base { name: BaseType::String }.is_null());
    assert!(Type::Literal { value: Literal { properties: vec![] } }.is_null());
    let prop = Property {
        name: "x".to_string(),
        optional: false,
        documentation: String::new(),
        ty: Type::Base { name: BaseType::Integer },
    };
    assert!(!Type::Literal { value: Literal { properties: vec![prop] } }.is_null());
    assert!(!Type::Reference { name: "Null".to_string() }.is_null());
    assert!(!Type::Or { items: vec![Type::Base { name: BaseType::Null }] }.is_null());
}

#[test]
fn unions_default_to_first() {
    assert!(matches!(Or2::<bool, String>::default(), Or2::A(false)));
    assert!(matches!(Or3::<u8, bool, String>::default(), Or3::A(0)));
}

#[test]
fn notification_name_ignores_which_boundary() {
    assert_eq!(notification_name("$/cancelRequest"), notification_name("/cancelRequest"));
    assert_eq!(notification_name("a$b"), notification_name("a/b"));
    assert_eq!(notification_name("a$b"), notification_name("a$$b"));
    assert_eq!(notification_name("$exit"), notification_name("exit"));
    assert_eq!(notification_name("exit$"), notification_name("exit"));
    assert_eq!(notification_name("a/b"), "AB");
}

#[test]
fn types_clone() {
    let t = Type::Or {
        items: vec![
            Type::Base { name: BaseType::Null },
            Type::Literal {
                value: Literal {
                    properties: vec![Property {
                        name: "p".to_string(),
                        optional: true,
                        documentation: "d".to_string(),
                        ty: Type::Reference { name: "R".to_string() },
                    }],
                },
            },
        ],
    };
    assert_eq!(t.clone(), t);
}
