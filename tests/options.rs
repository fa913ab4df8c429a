use arc_wrapper::config::{Config, ConfigError, Lock, Method, Rw};
use arc_wrapper::expand::{plan, Expansion, GuardKind, Inner};
use arc_wrapper::meta::{path_to_ident, text_is, AttrPath, MetaArg, MetaBody};
use arc_wrapper::tokens::unquote;
use quote::ToTokens;
use syn::parse::Parser;
use syn::punctuated::Punctuated;

fn path_of(p: &syn::Path) -> AttrPath {
    AttrPath {
        leading_colon: p.leading_colon.is_some(),
        segments: p.segments.iter().map(|s| s.ident.to_string()).collect(),
    }
}

fn arg_of(m: syn::Meta) -> MetaArg {
    let (path, body) = match &m {
        syn::Meta::Path(p) => (path_of(p), MetaBody::Word),
        syn::Meta::List(l) => (path_of(&l.path), MetaBody::List(args_of(l.tokens.clone()))),
        syn::Meta::NameValue(nv) => (
            path_of(&nv.path),
            MetaBody::NameValue(nv.value.to_token_stream().to_string()),
        ),
    };
    MetaArg { path, body, raw: m }
}

fn args_of(tokens: proc_macro2::TokenStream) -> Result<Vec<MetaArg>, syn::Error> {
    let metas = Punctuated::<syn::Meta, syn::token::Comma>::parse_terminated.parse2(tokens)?;
    Ok(metas.into_iter().map(arg_of).collect())
}

fn args(text: &str) -> Vec<MetaArg> {
    match args_of(text.parse().unwrap()) {
        Ok(a) => a,
        Err(e) => panic!("arguments do not parse: {}", e),
    }
}

fn planned(text: &str, name: &str) -> Expansion {
    match plan(args(text), name) {
        Ok(x) => x,
        Err(_) => panic!("options rejected: {}", text),
    }
}

fn rejected(text: &str) -> ConfigError {
    match plan(args(text), "Foo") {
        Ok(_) => panic!("options accepted: {}", text),
        Err(e) => e,
    }
}

fn printed(m: &MetaArg) -> String {
    m.raw.to_token_stream().to_string()
}

#[test]
fn unquote_strips_quotes_at_both_ends() {
    assert_eq!(unquote("\"pub\""), "pub");
    assert_eq!(unquote("\"\"a\"b\"\""), "a\"b");
    assert_eq!(unquote("\""), "");
    assert_eq!(unquote(""), "");
    assert_eq!(unquote("plain"), "plain");
}

#[test]
fn path_to_ident_takes_single_segments_only() {
    let one = AttrPath { leading_colon: false, segments: vec!["mutex".to_string()] };
    assert!(one.single());
    assert_eq!(path_to_ident(&one), "mutex");
    let rooted = AttrPath { leading_colon: true, segments: vec!["mutex".to_string()] };
    assert!(!rooted.single());
    let two = AttrPath { leading_colon: false, segments: vec!["a".to_string(), "b".to_string()] };
    assert!(!two.single());
}

#[test]
fn text_is_compares_characters() {
    assert!(text_is(&"vis".to_string(), "vis"));
    assert!(!text_is(&"vis".to_string(), "vi"));
}

#[test]
fn no_options_give_plain_arc() {
    let x = planned("", "Foo");
    assert_eq!(x.name, "ArcFoo");
    assert_eq!(x.inner, Inner::Plain);
    assert!(x.vis.is_none());
    assert!(x.guards.is_empty());
    assert!(x.metas.is_empty());
}

#[test]
fn mutex_word_gives_lock_guard() {
    let x = planned("mutex", "Export");
    assert_eq!(x.name, "ArcExport");
    assert_eq!(x.inner, Inner::Mutex);
    assert_eq!(x.guards.len(), 1);
    assert_eq!(x.guards[0].kind, GuardKind::Lock);
    assert_eq!(x.guards[0].name, "lock_guard");
    assert!(x.guards[0].vis.is_none());
}

#[test]
fn mutex_and_visibility() {
    let x = planned("mutex, vis = \"pub\"", "NotExport");
    assert_eq!(x.inner, Inner::Mutex);
    assert_eq!(x.vis, Some("pub".to_string()));
}

#[test]
fn rwlock_word_gives_read_and_write_guards() {
    let x = planned("rwlock", "Foo");
    assert_eq!(x.inner, Inner::RwLock);
    assert_eq!(x.guards.len(), 2);
    assert_eq!(x.guards[0].kind, GuardKind::Read);
    assert_eq!(x.guards[0].name, "read_guard");
    assert_eq!(x.guards[1].kind, GuardKind::Write);
    assert_eq!(x.guards[1].name, "write_guard");
}

#[test]
fn lock_option_names_each_kind() {
    assert_eq!(planned("lock = \"mutex\"", "A").inner, Inner::Mutex);
    assert_eq!(planned("lock = \"rwlock\"", "A").inner, Inner::RwLock);
    let none = planned("lock = \"none\"", "A");
    assert_eq!(none.inner, Inner::Plain);
    assert!(none.guards.is_empty());
}

#[test]
fn unknown_lock_is_rejected() {
    match rejected("lock = \"spin\"") {
        ConfigError::UnknownLock(v) => assert_eq!(v, "spin"),
        _ => panic!("wrong error"),
    }
}

#[test]
fn mutex_list_sets_method_and_hands_on_attributes() {
    let x = planned("derive(Clone, Debug), mutex(method = \"mutex_guard\", doc = r\"return the MutexGuard\")", "WithGenerics");
    assert_eq!(x.name, "ArcWithGenerics");
    assert_eq!(x.inner, Inner::Mutex);
    assert_eq!(x.metas.len(), 1);
    assert_eq!(printed(&x.metas[0]), "derive (Clone , Debug)");
    assert_eq!(x.guards.len(), 1);
    assert_eq!(x.guards[0].name, "mutex_guard");
    assert_eq!(x.guards[0].metas.len(), 1);
    assert_eq!(printed(&x.guards[0].metas[0]), "doc = r\"return the MutexGuard\"");
}

#[test]
fn rwlock_lists_set_each_method() {
    let x = planned(
        "vis = \"pub\", rwlock(read(method = \"r\", vis = \"pub(crate)\"), write(method = \"w\", inline))",
        "Rw",
    );
    assert_eq!(x.vis, Some("pub".to_string()));
    assert_eq!(x.guards[0].name, "r");
    assert_eq!(x.guards[0].vis, Some("pub(crate)".to_string()));
    assert_eq!(x.guards[1].name, "w");
    assert!(x.guards[1].vis.is_none());
    assert_eq!(x.guards[1].metas.len(), 1);
    assert_eq!(printed(&x.guards[1].metas[0]), "inline");
}

#[test]
fn rwlock_keys_set_names_and_visibilities() {
    let x = planned(
        "rwlock(read = \"get\", read_vis = \"pub\", write = \"set\", write_vis = \"pub(super)\")",
        "Foo",
    );
    assert_eq!(x.guards[0].name, "get");
    assert_eq!(x.guards[0].vis, Some("pub".to_string()));
    assert_eq!(x.guards[1].name, "set");
    assert_eq!(x.guards[1].vis, Some("pub(super)".to_string()));
}

#[test]
fn read_list_replaces_earlier_read_options() {
    let x = planned("rwlock(read_vis = \"pub\", read(method = \"r\"))", "Foo");
    assert_eq!(x.guards[0].name, "r");
    assert!(x.guards[0].vis.is_none());
}

#[test]
fn rename_sets_the_type_name() {
    let x = planned("rename = \"Handle\", mutex", "Foo");
    assert_eq!(x.name, "Handle");
}

#[test]
fn unknown_keys_are_handed_on_to_the_type() {
    let x = planned("doc = \"a handle\", serde, non_exhaustive", "Foo");
    assert_eq!(x.metas.len(), 3);
    assert_eq!(printed(&x.metas[0]), "doc = \"a handle\"");
    assert_eq!(printed(&x.metas[1]), "serde");
    assert_eq!(printed(&x.metas[2]), "non_exhaustive");
}

#[test]
fn second_lock_is_a_duplicate() {
    match rejected("mutex, rwlock") {
        ConfigError::DuplicateKey(k) => assert_eq!(k, "rwlock"),
        _ => panic!("wrong error"),
    }
    match rejected("rwlock, lock = \"mutex\"") {
        ConfigError::DuplicateKey(k) => assert_eq!(k, "lock"),
        _ => panic!("wrong error"),
    }
    match rejected("lock = \"none\", mutex(method = \"m\")") {
        ConfigError::DuplicateKey(k) => assert_eq!(k, "mutex"),
        _ => panic!("wrong error"),
    }
}

#[test]
fn repeated_keys_are_duplicates() {
    match rejected("vis = \"pub\", vis = \"pub\"") {
        ConfigError::DuplicateKey(k) => assert_eq!(k, "vis"),
        _ => panic!("wrong error"),
    }
    match rejected("rename = \"A\", rename = \"B\"") {
        ConfigError::DuplicateKey(k) => assert_eq!(k, "rename"),
        _ => panic!("wrong error"),
    }
    match rejected("mutex(method = \"a\", method = \"b\")") {
        ConfigError::DuplicateKey(k) => assert_eq!(k, "method"),
        _ => panic!("wrong error"),
    }
    match rejected("rwlock(write_vis = \"pub\", write_vis = \"pub\")") {
        ConfigError::DuplicateKey(k) => assert_eq!(k, "write_vis"),
        _ => panic!("wrong error"),
    }
}

#[test]
fn path_keys_are_rejected() {
    assert!(matches!(rejected("a::b"), ConfigError::NotIdent));
    assert!(matches!(rejected("::mutex"), ConfigError::NotIdent));
    assert!(matches!(rejected("a::b = \"c\""), ConfigError::NotIdent));
    assert!(matches!(rejected("mutex(a::b = \"c\")"), ConfigError::NotIdent));
}

#[test]
fn rwlock_rejects_unknown_keys_and_words() {
    match rejected("rwlock(guard = \"g\")") {
        ConfigError::UnexpectedKey(k) => assert_eq!(k, "guard"),
        _ => panic!("wrong error"),
    }
    match rejected("rwlock(other(method = \"g\"))") {
        ConfigError::UnexpectedKey(k) => assert_eq!(k, "other"),
        _ => panic!("wrong error"),
    }
    assert!(matches!(rejected("rwlock(inline)"), ConfigError::UnexpectedValue));
}

#[test]
fn values_that_do_not_parse_are_rejected() {
    assert!(matches!(rejected("vis = \"hidden\""), ConfigError::Syntax(_)));
    assert!(matches!(rejected("rename = \"1abc\""), ConfigError::Syntax(_)));
    assert!(matches!(rejected("mutex(vis = \"crate\")"), ConfigError::Syntax(_)));
    assert!(matches!(rejected("rwlock(read(method = \"a b\"))"), ConfigError::Syntax(_)));
    assert!(matches!(rejected("mutex(=)"), ConfigError::Syntax(_)));
}

#[test]
fn values_that_do_not_lex_are_rejected() {
    assert!(matches!(rejected("doc = \"a\\\"b\""), ConfigError::Lex(_)));
    assert!(matches!(rejected("mutex(vis = \"a\\\"b\")"), ConfigError::Syntax(_)));
}

#[test]
fn method_and_rw_parse_directly() {
    let m = match Method::parse(args("vis = \"pub\", method = \"take\"")) {
        Ok(m) => m,
        Err(_) => panic!("rejected"),
    };
    assert_eq!(m.vis, Some("pub".to_string()));
    assert_eq!(m.name, Some("take".to_string()));
    let rw = match Rw::parse(args("read = \"a\"")) {
        Ok(rw) => rw,
        Err(_) => panic!("rejected"),
    };
    assert_eq!(rw.read.name, Some("a".to_string()));
    assert!(rw.write.name.is_none());
    let c = match Config::parse(args("rename = \"B\"")) {
        Ok(c) => c,
        Err(_) => panic!("rejected"),
    };
    assert_eq!(c.name, Some("B".to_string()));
    assert!(c.lock.is_none());
}

#[test]
fn lock_value_is_compared_by_its_tokens() {
    assert_eq!(planned("lock = \" mutex \"", "A").inner, Inner::Mutex);
    let x = planned("rename = \" Handle \"", "A");
    assert_eq!(x.name, " Handle ");
}

#[test]
fn lock_is_named_by_its_printed_value() {
    assert!(matches!(Lock::named(&"mutex".to_string()), Some(Lock::Mutex(_))));
    assert!(matches!(Lock::named(&"rwlock".to_string()), Some(Lock::Rw(_))));
    assert!(matches!(Lock::named(&"none".to_string()), Some(Lock::Arc)));
    assert!(Lock::named(&"Mutex".to_string()).is_none());
}

#[test]
fn apply_reads_the_given_lexing_outcome() {
    let mut c = Config::new();
    let a = args("lock = \"whatever\"").remove(0);
    assert!(c.apply(a, Ok("rwlock".to_string()), Ok(())).is_ok());
    assert!(matches!(c.lock, Some(Lock::Rw(_))));
    let mut d = Config::new();
    let b = args("doc = \"x\"").remove(0);
    let failed = "a\\b".parse::<proc_macro2::TokenStream>().unwrap_err();
    assert!(matches!(d.apply(b, Err(failed), Ok(())), Err(ConfigError::Lex(_))));
    assert!(d.metas.is_empty());
}

#[test]
fn apply_reads_the_given_check_outcome() {
    let refused = || syn::Error::new(proc_macro2::Span::call_site(), "refused");
    let mut c = Config::new();
    let a = args("vis = \"pub\"").remove(0);
    assert!(matches!(c.apply(a, Ok("pub".to_string()), Err(refused())), Err(ConfigError::Syntax(_))));
    assert!(c.struct_vis.is_none());
    let mut m = Method::new();
    let b = args("method = \"take\"").remove(0);
    assert!(m.apply(b, Ok(())).is_ok());
    assert_eq!(m.name, Some("take".to_string()));
    let mut rw = Rw::new();
    let w = args("write_vis = \"pub\"").remove(0);
    assert!(matches!(rw.apply(w, Err(refused())), Err(ConfigError::Syntax(_))));
    let mut m2 = Method::new();
    let d = args("doc = \"x\"").remove(0);
    assert!(m2.apply(d, Err(refused())).is_ok());
    assert_eq!(m2.metas.len(), 1);
}
