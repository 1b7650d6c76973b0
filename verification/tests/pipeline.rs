//! End-to-end tests of the transformation pipeline: generated text, collected
//! diagnostics, and the annotation grammar.

use robma_builder::annot::{get_repeated_name, AccumState};
use robma_builder::fields::{check_fields_for_errors, get_fields};
use robma_builder::schema::{get_angle_bracket_arg, is_option};
use robma_builder::{Annotation, AnnotationToken, FieldDef, RecordDef, TypeExpr};

fn plain(text: &str) -> TypeExpr {
    TypeExpr { text: text.to_string(), name: Some(text.to_string()), args: vec![] }
}

fn wrapper(name: &str, inner: TypeExpr) -> TypeExpr {
    let text = name.to_string() + "<" + &inner.text + ">";
    TypeExpr { text, name: Some(name.to_string()), args: vec![inner] }
}

fn field(name: &str, ty: TypeExpr, attrs: Vec<Annotation>) -> FieldDef {
    FieldDef { name: name.to_string(), ty, attrs }
}

fn ident(name: &str) -> AnnotationToken {
    AnnotationToken::Ident { name: name.to_string() }
}

fn punct(ch: char) -> AnnotationToken {
    AnnotationToken::Punct { ch }
}

fn str_lit(content: &str) -> AnnotationToken {
    AnnotationToken::Literal { str_value: Some(content.to_string()) }
}

fn group(span: usize, tokens: Vec<AnnotationToken>) -> AnnotationToken {
    AnnotationToken::Group { parenthesized: true, tokens, span }
}

fn builder_attr(span: usize, tokens: Vec<AnnotationToken>) -> Annotation {
    Annotation { path: vec!["builder".to_string()], tokens: vec![group(span, tokens)] }
}

fn each_attr(span: usize, op: &str) -> Annotation {
    builder_attr(span, vec![ident("each"), punct('='), str_lit(op)])
}

fn command_record() -> RecordDef {
    RecordDef {
        name: "Command".to_string(),
        fields: vec![
            field("executable", plain("String"), vec![]),
            field("args", wrapper("Vec", plain("String")), vec![each_attr(1, "arg")]),
            field("env", wrapper("Vec", plain("String")), vec![each_attr(2, "env")]),
            field("current_dir", wrapper("Option", plain("String")), vec![]),
        ],
    }
}

const COMMAND_EXPECTED: &str = "#[derive(Debug, PartialEq)]
struct CommandBuilder {
    executable: std::option::Option<String>,
    args: Vec<String>,
    env: Vec<String>,
    current_dir: std::option::Option<String>,
}

impl Command {
    fn builder() -> CommandBuilder {
        CommandBuilder {
            executable: std::option::Option::None,
            args: std::vec::Vec::new(),
            env: std::vec::Vec::new(),
            current_dir: std::option::Option::None,
        }
    }
}

impl CommandBuilder {
    fn executable(&mut self, x: String) -> &mut Self {
        self.executable = std::option::Option::Some(x);
        self
    }

    fn arg(&mut self, x: String) -> &mut Self {
        self.args.push(x);
        self
    }

    fn env(&mut self, x: String) -> &mut Self {
        self.env.push(x);
        self
    }

    fn current_dir(&mut self, x: String) -> &mut Self {
        self.current_dir = std::option::Option::Some(x);
        self
    }

    fn build(&mut self) -> std::result::Result<Command, std::boxed::Box<dyn std::error::Error>> {
        std::result::Result::Ok(Command {
            executable: self.executable.take().ok_or(\"Field 'executable' not initialized.\")?,
            args: self.args.clone(),
            env: self.env.clone(),
            current_dir: self.current_dir.take(),
        })
    }
}
";

#[test]
fn scenario_full_record_generated_text() {
    let out = robma_builder::derive(command_record()).expect("clean record must generate");
    assert_eq!(out, COMMAND_EXPECTED);
}

#[test]
fn pipeline_is_idempotent() {
    let first = robma_builder::derive(command_record());
    let second = robma_builder::derive(command_record());
    assert_eq!(first, second);
    let bad = RecordDef {
        name: "Broken".to_string(),
        fields: vec![field(
            "xs",
            wrapper("Vec", plain("u32")),
            vec![builder_attr(9, vec![ident("every"), punct('='), str_lit("x")])],
        )],
    };
    let bad_again = RecordDef {
        name: "Broken".to_string(),
        fields: vec![field(
            "xs",
            wrapper("Vec", plain("u32")),
            vec![builder_attr(9, vec![ident("every"), punct('='), str_lit("x")])],
        )],
    };
    assert_eq!(robma_builder::derive(bad), robma_builder::derive(bad_again));
}

#[test]
fn scenario_single_optional_field() {
    let record = RecordDef {
        name: "Workspace".to_string(),
        fields: vec![field("root", wrapper("Option", plain("String")), vec![])],
    };
    let out = robma_builder::derive(record).expect("optional-only record must generate");
    let expected = "#[derive(Debug, PartialEq)]
struct WorkspaceBuilder {
    root: std::option::Option<String>,
}

impl Workspace {
    fn builder() -> WorkspaceBuilder {
        WorkspaceBuilder {
            root: std::option::Option::None,
        }
    }
}

impl WorkspaceBuilder {
    fn root(&mut self, x: String) -> &mut Self {
        self.root = std::option::Option::Some(x);
        self
    }

    fn build(&mut self) -> std::result::Result<Workspace, std::boxed::Box<dyn std::error::Error>> {
        std::result::Result::Ok(Workspace {
            root: self.root.take(),
        })
    }
}
";
    assert_eq!(out, expected);
}

#[test]
fn scenario_trailing_tokens_one_diagnostic() {
    let tokens = vec![
        ident("each"),
        punct('='),
        str_lit("x"),
        punct(','),
        ident("bogus"),
        punct('='),
        str_lit("y"),
    ];
    let record = RecordDef {
        name: "Task".to_string(),
        fields: vec![field("steps", wrapper("Vec", plain("String")), vec![builder_attr(42, tokens)])],
    };
    let errs = robma_builder::derive(record).expect_err("malformed annotation must not generate");
    assert_eq!(errs.len(), 1);
    assert_eq!(errs[0].span, 42);
    assert_eq!(errs[0].message, "expected `each = '...'`");
}

#[test]
fn every_malformed_field_is_reported() {
    let record = RecordDef {
        name: "Job".to_string(),
        fields: vec![
            field("a", plain("String"), vec![builder_attr(7, vec![ident("foo")])]),
            field("b", plain("u64"), vec![]),
            field(
                "c",
                wrapper("Vec", plain("u8")),
                vec![builder_attr(8, vec![ident("all"), punct('='), str_lit("c")])],
            ),
        ],
    };
    let errs = robma_builder::derive(record).expect_err("two malformed annotations must not generate");
    assert_eq!(errs.len(), 2);
    assert_eq!(errs[0].span, 7);
    assert_eq!(errs[1].span, 8);
    assert_eq!(errs[0].message, "expected `each = '...'`");
    assert_eq!(errs[1].message, "expected `each = '...'`");
}

#[test]
fn well_formed_each_yields_operation_name() {
    let attrs = vec![each_attr(3, "push")];
    match get_repeated_name(&attrs) {
        AccumState::Named(op) => assert_eq!(op, "push"),
        _ => panic!("expected an accumulator name"),
    }
}

#[test]
fn absence_of_builder_marker_is_not_a_failure() {
    let other = Annotation {
        path: vec!["serde".to_string()],
        tokens: vec![group(5, vec![ident("skip")])],
    };
    assert!(matches!(get_repeated_name(&vec![other]), AccumState::Missing));
    assert!(matches!(get_repeated_name(&vec![]), AccumState::Missing));
}

#[test]
fn wrong_keyword_is_malformed() {
    let attrs = vec![builder_attr(11, vec![ident("every"), punct('='), str_lit("x")])];
    assert!(matches!(get_repeated_name(&attrs), AccumState::Malformed(11)));
}

#[test]
fn non_string_literal_is_malformed() {
    let attrs = vec![builder_attr(
        12,
        vec![ident("each"), punct('='), AnnotationToken::Literal { str_value: None }],
    )];
    assert!(matches!(get_repeated_name(&attrs), AccumState::Malformed(12)));
}

#[test]
fn empty_group_is_malformed() {
    let attrs = vec![builder_attr(13, vec![])];
    assert!(matches!(get_repeated_name(&attrs), AccumState::Malformed(13)));
}

#[test]
fn only_first_builder_group_is_consulted() {
    let attrs = vec![each_attr(1, "first"), builder_attr(2, vec![ident("junk")])];
    match get_repeated_name(&attrs) {
        AccumState::Named(op) => assert_eq!(op, "first"),
        _ => panic!("the first well-formed group must win"),
    }
}

#[test]
fn optional_shape_is_recognized() {
    assert!(is_option(&wrapper("Option", plain("String"))));
    assert!(!is_option(&plain("String")));
    assert!(!is_option(&wrapper("Vec", plain("String"))));
    let bare = TypeExpr { text: "Option".to_string(), name: Some("Option".to_string()), args: vec![] };
    assert!(!is_option(&bare));
    let unnamed = TypeExpr { text: "&str".to_string(), name: None, args: vec![] };
    assert!(!is_option(&unnamed));
}

#[test]
fn first_argument_extraction() {
    let v = wrapper("Vec", plain("u16"));
    let arg = get_angle_bracket_arg(&v).expect("wrapper carries an argument");
    assert_eq!(arg.text, "u16");
    assert!(get_angle_bracket_arg(&plain("u16")).is_none());
}

#[test]
fn descriptors_follow_declaration_order() {
    let record = command_record();
    let ds = get_fields(record.fields);
    assert_eq!(ds.len(), 4);
    assert_eq!(ds[0].name, "executable");
    assert!(!ds[0].is_optional);
    assert_eq!(ds[0].effective_type.text, "String");
    assert!(matches!(ds[0].accumulator, AccumState::Missing));
    assert_eq!(ds[1].name, "args");
    assert_eq!(ds[1].declared_text, "Vec<String>");
    assert_eq!(ds[1].effective_type.text, "Vec<String>");
    match &ds[1].accumulator {
        AccumState::Named(op) => assert_eq!(op, "arg"),
        _ => panic!("args accumulates"),
    }
    assert_eq!(ds[3].name, "current_dir");
    assert!(ds[3].is_optional);
    assert_eq!(ds[3].declared_text, "Option<String>");
    assert_eq!(ds[3].effective_type.text, "String");
    assert!(check_fields_for_errors(&ds).is_none());
}
