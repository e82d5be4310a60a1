use msvc_demangler::ast::Backrefs;
use msvc_demangler::context::{Context, Literal};
use msvc_demangler::render::{decimal, render_symbol};
use msvc_demangler::tokens::{Color, TokenStream};
use msvc_demangler::{demangle, parse, parse_tree};

fn text(s: &str) -> Option<String> {
    parse(s).map(|ts| String::from_utf8(ts.to_bytes()).unwrap())
}

fn ident_texts(input: &str, br: &Backrefs) -> Vec<String> {
    br.idents
        .iter()
        .map(|l| String::from_utf8(input.as_bytes()[l.start..l.end].to_vec()).unwrap())
        .collect()
}

#[test]
fn variable_int() {
    assert_eq!(text("?x@@3HA").as_deref(), Some("int x"));
}

#[test]
fn function_with_int_parameter() {
    assert_eq!(text("?fn@@YAHH@Z").as_deref(), Some("int __cdecl fn(int)"));
}

#[test]
fn function_in_namespace() {
    assert_eq!(text("?foo@NS@@YAXXZ").as_deref(), Some("void __cdecl NS::foo(void)"));
}

#[test]
fn constructor_takes_class_name() {
    assert_eq!(text("??0A@@QAE@XZ").as_deref(), Some("public: __thiscall A::A(void)"));
}

#[test]
fn virtual_destructor() {
    assert_eq!(text("??1A@@UAE@XZ").as_deref(), Some("public: virtual __thiscall A::~A(void)"));
}

#[test]
fn pointer_return() {
    assert_eq!(text("?f@@YAPAHXZ").as_deref(), Some("int * __cdecl f(void)"));
}

#[test]
fn pointer_to_function_return() {
    assert_eq!(text("?g@@YAP6AHH@ZXZ").as_deref(), Some("int (__cdecl*__cdecl g(void))(int)"));
}

#[test]
fn md5_name() {
    assert_eq!(
        text("??@abcdef0123456789abcdef0123456789@").as_deref(),
        Some("??@abcdef0123456789abcdef0123456789@")
    );
}

#[test]
fn empty_input_fails() {
    assert!(parse("").is_none());
    assert!(demangle(b"").is_none());
}

#[test]
fn lone_question_mark_fails() {
    assert!(parse("?").is_none());
    assert!(parse(".?").is_none());
}

#[test]
fn deep_nesting_fails_without_panic() {
    let mut s = String::from("?x@@3");
    for _ in 0..300 {
        s.push_str("PA");
    }
    s.push_str("HA");
    assert!(parse(&s).is_none());
    let (sym, ctx, _) = parse_tree(s.as_bytes());
    assert!(sym.is_none());
    assert_eq!(ctx.depth, 0);
    assert!(ctx.mods.is_empty());
}

#[test]
fn moderate_nesting_succeeds() {
    let mut s = String::from("?x@@3");
    for _ in 0..5 {
        s.push_str("PA");
    }
    s.push_str("HA");
    assert_eq!(text(&s).as_deref(), Some("int * * * * * x"));
}

#[test]
fn md5_of_wrong_length_fails() {
    assert!(parse("??@abcdef0123456789abcdef012345678@").is_none());
    assert!(parse("??@abcdef0123456789abcdef01234567890@").is_none());
    assert!(parse("??@abcdef0123456789abcdef0123456789").is_none());
}

#[test]
fn leading_dot_is_skipped() {
    assert_eq!(text(".?x@@3HA").as_deref(), Some("int x"));
}

#[test]
fn non_msvc_names_fail() {
    assert!(parse("_ZN3foo3barEv").is_none());
    assert!(parse("main").is_none());
}

#[test]
fn thread_safe_static_guard_fails() {
    assert!(parse("?$TSS0@?1??f@@YAXXZ@4HA").is_none());
}

#[test]
fn streams_are_non_empty_and_colored() {
    for s in [
        "?x@@3HA",
        "?fn@@YAHH@Z",
        "??0A@@QAE@XZ",
        "?g@@YAP6AHH@ZXZ",
        "??@abcdef0123456789abcdef0123456789@",
    ] {
        let ts = parse(s).unwrap();
        assert!(ts.len() > 0);
        let mut joined = Vec::new();
        for t in &ts.tokens {
            joined.extend_from_slice(&t.text);
            assert!(matches!(
                t.color,
                Color::Red
                    | Color::Blue
                    | Color::Magenta
                    | Color::Purple
                    | Color::White
                    | Color::Gray20
                    | Color::Gray40
                    | Color::Green
            ));
        }
        assert_eq!(joined, ts.to_bytes());
    }
}

#[test]
fn state_is_restored_after_parse() {
    for s in ["?x@@3HA", "?g@@YAP6AHH@ZXZ", "?f@@YAXPAH0@Z", "?x@@3", "?f@@YAPA", "??"] {
        let (_, ctx, br) = parse_tree(s.as_bytes());
        assert!(ctx.mods.is_empty());
        assert_eq!(ctx.depth, 0);
        assert!(br.idents.len() <= 10);
        assert!(br.params.len() <= 10);
    }
}

#[test]
fn identifier_table_holds_at_most_ten() {
    let s = "?f@a@b@c@d@e@g@h@i@j@k@l@@YAXXZ";
    let (sym, _, br) = parse_tree(s.as_bytes());
    assert!(sym.is_some());
    assert_eq!(br.idents.len(), 10);
    assert_eq!(
        ident_texts(s, &br),
        vec!["f", "a", "b", "c", "d", "e", "g", "h", "i", "j"]
    );
    assert_eq!(
        text(s).as_deref(),
        Some("void __cdecl l::k::j::i::h::g::e::d::c::b::a::f(void)")
    );
}

#[test]
fn identifier_table_contents() {
    let s = "?foo@NS@@YAXXZ";
    let (_, _, br) = parse_tree(s.as_bytes());
    assert_eq!(ident_texts(s, &br), vec!["foo", "NS"]);
    assert_eq!(br.params.len(), 0);
}

#[test]
fn template_tables_do_not_leak() {
    let with = "?f@?$A@H@@YAXXZ";
    let without = "?f@A@@YAXXZ";
    let (_, _, br_with) = parse_tree(with.as_bytes());
    let (_, _, br_without) = parse_tree(without.as_bytes());
    assert_eq!(ident_texts(with, &br_with), ident_texts(without, &br_without));
    assert_eq!(br_with.params.len(), br_without.params.len());
    assert_eq!(text(with).as_deref(), Some("void __cdecl A<int>::f(void)"));
}

#[test]
fn rendering_is_deterministic() {
    for s in ["?g@@YAP6AHH@ZXZ", "??4A@@QAEAAV0@ABV0@@Z", "?f@?$A@H@@YAXXZ"] {
        let (sym, ctx, _) = parse_tree(s.as_bytes());
        let sym = sym.unwrap();
        let mut a = TokenStream::new();
        let mut b = TokenStream::new();
        render_symbol(&sym, &ctx.src, &mut a);
        render_symbol(&sym, &ctx.src, &mut b);
        assert_eq!(a.tokens.len(), b.tokens.len());
        for (x, y) in a.tokens.iter().zip(b.tokens.iter()) {
            assert_eq!(x.text, y.text);
            assert_eq!(x.color, y.color);
        }
        assert_eq!(text(s), text(s));
    }
}

#[test]
fn parameter_back_reference() {
    assert_eq!(text("?f@@YAXPAH0@Z").as_deref(), Some("void __cdecl f(int *, int *)"));
    let (_, _, br) = parse_tree(b"?f@@YAXPAH0@Z");
    assert_eq!(br.params.len(), 1);
}

#[test]
fn single_byte_types_are_not_remembered() {
    let (_, _, br) = parse_tree(b"?f@@YAXHHH@Z");
    assert_eq!(br.params.len(), 0);
    assert!(parse("?f@@YAXH0@Z").is_none());
}

#[test]
fn unknown_back_reference_fails() {
    assert!(parse("?f@@YAX5@Z").is_none());
    assert!(parse("?f@3@YAXXZ").is_none());
}

#[test]
fn struct_parameter() {
    assert_eq!(text("?f@@YAXUS@@H@Z").as_deref(), Some("void __cdecl f(struct S, int)"));
}

#[test]
fn assignment_operator() {
    assert_eq!(
        text("??4A@@QAEAAV0@ABV0@@Z").as_deref(),
        Some("public: class A & __thiscall A::operator=(class A const &)")
    );
}

#[test]
fn function_pointer_parameter() {
    assert_eq!(
        text("?f@@YAXP6AHH@Z@Z").as_deref(),
        Some("void __cdecl f(int (__cdecl*)(int))")
    );
}

#[test]
fn two_dimensional_array() {
    assert_eq!(text("?a@@3PAY112HA").as_deref(), Some("int (* a)[2][3]"));
}

#[test]
fn negative_array_rank_fails() {
    assert!(parse("?a@@3PAY?01HA").is_none());
}

#[test]
fn vftable() {
    assert_eq!(text("??_7A@@6B@").as_deref(), Some("const A::`vftable'"));
}

#[test]
fn equality_operator() {
    assert_eq!(
        text("??8A@@QBE_NABV0@@Z").as_deref(),
        Some("public: bool __thiscall A::operator==(class A const &) const")
    );
}

#[test]
fn subscript_operator() {
    assert_eq!(
        text("??AA@@QAEHH@Z").as_deref(),
        Some("public: int __thiscall A::operator[](int)")
    );
}

#[test]
fn numbers() {
    let cases: [(&str, Option<i64>, usize); 7] = [
        ("A@", Some(0), 2),
        ("BA@", Some(16), 3),
        ("P@", Some(15), 2),
        ("5", Some(6), 1),
        ("?0", Some(-1), 2),
        ("?BA@", Some(-16), 4),
        ("@", Some(0), 1),
    ];
    for (s, v, used) in cases {
        let mut ctx = Context::new(s.as_bytes());
        assert_eq!(ctx.number(), v, "{s}");
        assert_eq!(ctx.offset, used, "{s}");
    }
    for s in ["", "Q@", "AB", "?"] {
        let mut ctx = Context::new(s.as_bytes());
        assert_eq!(ctx.number(), None, "{s}");
        assert_eq!(ctx.offset, 0, "{s}");
    }
    let mut ctx = Context::new(b"HPPPPPPPPPPPPPPP@");
    assert_eq!(ctx.number(), Some(i64::MAX));
    let mut ctx = Context::new(b"IAAAAAAAAAAAAAAA@");
    assert_eq!(ctx.number(), None);
}

#[test]
fn identifiers() {
    let mut ctx = Context::new(b"abc@rest");
    assert_eq!(ctx.ident(), Some(Literal { start: 0, end: 3 }));
    assert_eq!(ctx.offset, 4);
    let mut ctx = Context::new(b"@x");
    assert_eq!(ctx.ident(), None);
    let mut ctx = Context::new(b"abc");
    assert_eq!(ctx.ident(), None);
    assert_eq!(ctx.offset, 0);
}

#[test]
fn literal_len() {
    assert_eq!(Literal { start: 3, end: 8 }.len(), 5);
    assert_eq!(Literal { start: 4, end: 4 }.len(), 0);
}

#[test]
fn decimal_text() {
    assert_eq!(decimal(0), b"0".to_vec());
    assert_eq!(decimal(-120), b"-120".to_vec());
    assert_eq!(decimal(i64::MIN), b"-9223372036854775808".to_vec());
    assert_eq!(decimal(i64::MAX), b"9223372036854775807".to_vec());
}

#[test]
fn template_parameter_and_constant() {
    assert_eq!(
        text("??$f@$0BA@@@YAXXZ").as_deref(),
        Some("void __cdecl f<16>(void)")
    );
}

#[test]
fn anonymous_namespace() {
    assert_eq!(
        text("?f@?A0x1234abcd@@YAXXZ").as_deref(),
        Some("void __cdecl `anonymous namespace'::f(void)")
    );
}

fn line(s: &str) -> String {
    String::from_utf8(msvc_demangler::lines::demangle_line(s.as_bytes())).unwrap()
}

#[test]
fn line_with_symbol() {
    assert_eq!(
        line("  401000: e8 1b 00 00 00  call 401020 <?f@@YAXXZ>"),
        "  401000: e8 1b 00 00 00  call 401020 <void __cdecl f(void)>"
    );
}

#[test]
fn line_with_offset() {
    assert_eq!(line("jmp <?f@@YAXXZ+0x10>"), "jmp <void __cdecl f(void)+0x10>");
}

#[test]
fn line_without_symbol_is_unchanged() {
    assert_eq!(line("  401000: 90  nop"), "  401000: 90  nop");
    assert_eq!(line("<?f@@YAXXZ> at the start"), "<?f@@YAXXZ> at the start");
    assert_eq!(line("call <?f@@YAXXZ"), "call <?f@@YAXXZ");
}

#[test]
fn line_with_other_symbol_keeps_it() {
    assert_eq!(line("call 401020 <_ZN3foo3barEv>"), "call 401020 <_ZN3foo3barEv>");
    assert_eq!(line("call <>"), "call <>");
}

#[test]
fn operators_by_code() {
    assert_eq!(text("??HA@@QAEHH@Z").as_deref(), Some("public: int __thiscall A::operator+(int)"));
    assert_eq!(text("??2@YAPAXI@Z").as_deref(), Some("void * __cdecl operator new(unsigned int)"));
}

#[test]
fn scalar_types() {
    assert_eq!(text("?x@@3_NA").as_deref(), Some("bool x"));
    assert_eq!(text("?x@@3_JA").as_deref(), Some("__int64 x"));
    assert_eq!(text("?x@@3NA").as_deref(), Some("double x"));
    assert_eq!(text("?x@@3_WA").as_deref(), Some("wchar_t x"));
}

#[test]
fn rtti_descriptor_has_no_type() {
    assert_eq!(
        text("??_R1A@?0A@EA@A@@8").as_deref(),
        Some("A::`RTTI Base Class Descriptor at (0, -1, 0, 64)'")
    );
}

#[test]
fn member_function_pointer_parameter() {
    assert_eq!(
        text("?f@@YAXP8A@@AEHH@Z@Z").as_deref(),
        Some("void __cdecl f(int (__thiscall A::*)(int))")
    );
}
