use vstd::prelude::*;
use crate::meta::{MetaArg, MetaBody, path_to_ident, text_is};
use crate::model::{
    lock_named, verdict, checked_value, Verdict, Fault, MethodModel, RwModel, LockModel, ConfigModel,
    method_step, method_stepper, method_of, rw_step, rw_stepper, rw_of, config_step,
    config_stepper, config_of, lemma_fold_stops, lemma_fold_verdicts,
};
use crate::tokens::{lex, parse_ident, parse_visibility, unquote};

verus! {

/// Why the attribute's options are rejected.
pub enum ConfigError {
    /// A key that is not a single identifier.
    NotIdent,
    /// A key given twice, or a second lock kind; with the key.
    DuplicateKey(String),
    /// A key that the options of a read-write lock do not know.
    UnexpectedKey(String),
    /// A bare word among the options of a read-write lock.
    UnexpectedValue,
    /// `lock = ".."` with another value than `mutex`, `rwlock` or `none`;
    /// with the printed value.
    UnknownLock(String),
    /// A value that does not lex.
    Lex(proc_macro2::LexError),
    /// A value, or a nested list, that does not parse.
    Syntax(syn::Error),
}

impl ConfigError {
    /// The error as a model.
    pub open spec fn fault(&self) -> Fault {
        match self {
            ConfigError::NotIdent => Fault::NotIdent,
            ConfigError::DuplicateKey(k) => Fault::DuplicateKey(k@),
            ConfigError::UnexpectedKey(k) => Fault::UnexpectedKey(k@),
            ConfigError::UnexpectedValue => Fault::UnexpectedValue,
            ConfigError::UnknownLock(v) => Fault::UnknownLock(v@),
            ConfigError::Lex(_) => Fault::Lex,
            ConfigError::Syntax(_) => Fault::Syntax,
        }
    }
}

/// The options of one guard method.
pub struct Method {
    pub vis: Option<String>,
    pub name: Option<String>,
    pub metas: Vec<MetaArg>,
}

pub open spec fn opt_text(v: Option<String>) -> Option<Seq<char>> {
    match v {
        Some(t) => Some(t@),
        None => None,
    }
}

impl View for Method {
    type V = MethodModel;

    open spec fn view(&self) -> MethodModel {
        MethodModel {
            vis: opt_text(self.vis),
            name: opt_text(self.name),
            metas: self.metas@,
        }
    }
}

/// `r`, with the options `after`, reports the model step `step`: the same
/// fault, or success with `after`.
pub open spec fn reports<M>(step: Result<M, Fault>, r: Result<(), ConfigError>, after: M) -> bool {
    match r {
        Ok(_) => step == Ok::<M, Fault>(after),
        Err(e) => step == Err::<M, Fault>(e.fault()),
    }
}

/// The unquoted text of an option value, given what syn's check of it gave.
fn accepted_value(v: &String, check: Result<(), syn::Error>) -> (r: Result<String, ConfigError>)
    ensures
        match r {
            Ok(u) => checked_value(v@, check is Ok) == Ok::<Seq<char>, Fault>(u@),
            Err(e) => checked_value(v@, check is Ok) == Err::<Seq<char>, Fault>(e.fault()),
        },
{
    match check {
        Ok(()) => Ok(unquote(v.as_str())),
        Err(e) => Err(ConfigError::Syntax(e)),
    }
}

/// Has syn check the unquoted value `v` as a visibility, or else as an
/// identifier.
fn syn_check(v: &String, as_vis: bool) -> Result<(), syn::Error> {
    let u = unquote(v.as_str());
    if as_vis {
        parse_visibility(u.as_str())
    } else {
        parse_ident(u.as_str())
    }
}

/// The key of a `key = "value"` argument whose key is one identifier.
fn value_key(a: &MetaArg) -> Option<(String, &String)> {
    match &a.body {
        MetaBody::NameValue(v) => if a.path.single() {
            Some((path_to_ident(&a.path), v))
        } else {
            None
        },
        _ => None,
    }
}

/// syn's check of an argument among the options of a guard method: `vis`
/// takes a visibility, `method` an identifier.
fn method_check(a: &MetaArg) -> Result<(), syn::Error> {
    match value_key(a) {
        Some((key, v)) => if text_is(&key, "vis") {
            syn_check(v, true)
        } else if text_is(&key, "method") {
            syn_check(v, false)
        } else {
            Ok(())
        },
        None => Ok(()),
    }
}

/// syn's check of an argument among the options of a read-write lock:
/// `read_vis` and `write_vis` take a visibility, `read` and `write` an
/// identifier.
fn rw_check(a: &MetaArg) -> Result<(), syn::Error> {
    match value_key(a) {
        Some((key, v)) => if text_is(&key, "read_vis") || text_is(&key, "write_vis") {
            syn_check(v, true)
        } else if text_is(&key, "read") || text_is(&key, "write") {
            syn_check(v, false)
        } else {
            Ok(())
        },
        None => Ok(()),
    }
}

/// syn's check of an argument of the attribute: `vis` takes a visibility,
/// `rename` an identifier.
fn config_check(a: &MetaArg) -> Result<(), syn::Error> {
    match value_key(a) {
        Some((key, v)) => if text_is(&key, "vis") {
            syn_check(v, true)
        } else if text_is(&key, "rename") {
            syn_check(v, false)
        } else {
            Ok(())
        },
        None => Ok(()),
    }
}

/// What lexing a value gave, as a model: the printed tokens, or `None`.
pub open spec fn lex_outcome(lexed: &Result<String, proc_macro2::LexError>) -> Option<Seq<char>> {
    match lexed {
        Ok(t) => Some(t@),
        Err(_) => None,
    }
}

/// Lexes the unquoted value of a `key = "value"` argument; other arguments
/// have no value to lex.
fn lex_value(a: &MetaArg) -> Result<String, proc_macro2::LexError> {
    match &a.body {
        MetaBody::NameValue(v) => lex(unquote(v.as_str()).as_str()),
        _ => Ok(String::new()),
    }
}

impl Method {
    /// Options that set nothing.
    pub fn new() -> (r: Method)
        ensures
            r@ == MethodModel::empty(),
    {
        Method { vis: None, name: None, metas: Vec::new() }
    }

    /// Applies one argument to the options read so far, given what syn's
    /// check of its value gave (read only for `vis` and `method`).
    pub fn apply(&mut self, a: MetaArg, check: Result<(), syn::Error>) -> (r: Result<(), ConfigError>)
        ensures
            reports(
                method_step(old(self)@, a, verdict(None, check is Ok, Seq::empty())),
                r,
                final(self)@,
            ),
    {
        match &a.body {
            MetaBody::NameValue(v) => {
                if !a.path.single() {
                    return Err(ConfigError::NotIdent);
                }
                let key = path_to_ident(&a.path);
                if text_is(&key, "vis") {
                    let vis = match accepted_value(v, check) {
                        Ok(x) => x,
                        Err(e) => return Err(e),
                    };
                    if self.vis.is_some() {
                        return Err(ConfigError::DuplicateKey(key));
                    }
                    self.vis = Some(vis);
                    Ok(())
                } else if text_is(&key, "method") {
                    let name = match accepted_value(v, check) {
                        Ok(x) => x,
                        Err(e) => return Err(e),
                    };
                    if self.name.is_some() {
                        return Err(ConfigError::DuplicateKey(key));
                    }
                    self.name = Some(name);
                    Ok(())
                } else {
                    self.metas.push(a);
                    Ok(())
                }
            },
            _ => {
                self.metas.push(a);
                Ok(())
            },
        }
    }

    /// Reads the options of a guard method from its arguments; whatever syn's
    /// checks of their values gave, the result is what the arguments say with
    /// those verdicts.
    pub fn parse(args: Vec<MetaArg>) -> (r: Result<Method, ConfigError>)
        ensures
            exists|vds: Seq<Verdict>|
                #[trigger] method_of(args@, vds) == (match r {
                    Ok(x) => Ok::<MethodModel, Fault>(x@),
                    Err(e) => Err::<MethodModel, Fault>(e.fault()),
                }),
    {
        let ghost all = args@;
        let ghost mut vds: Seq<Verdict> = Seq::empty();
        let mut rest = args;
        let mut m = Method::new();
        assert(all.take(0) =~= Seq::<MetaArg>::empty());
        while rest.len() > 0
            invariant
                all == args@,
                vds.len() <= all.len(),
                rest@ == all.subrange(vds.len() as int, all.len() as int),
                method_of(all.take(vds.len() as int), vds) == Ok::<MethodModel, Fault>(m@),
            decreases rest.len(),
        {
            let a = rest.remove(0);
            let check = method_check(&a);
            let ghost i = vds.len() as int;
            let ghost before = m@;
            let ghost ga = a;
            let ghost lo = None;
            let ghost ok = check is Ok;
            let r = m.apply(a, check);
            let ghost gr = r;
            let ghost vd = verdict(lo, ok, Seq::empty());
            let ghost next = vds.push(vd);
            proof {
                assert(all[i] == ga);
                lemma_fold_verdicts(MethodModel::empty(), method_stepper(), all.take(i), vds, next);
                assert(all.take(i + 1).drop_last() =~= all.take(i));
                assert(method_of(all.take(i + 1), next) == method_step(before, ga, vd));
            }
            match r {
                Ok(_) => {},
                Err(e) => {
                    proof {
                        lemma_fold_stops(MethodModel::empty(), method_stepper(), all, next, i + 1);
                        assert(method_of(args@, next) == Err::<MethodModel, Fault>(e.fault()));
                    }
                    return Err(e);
                },
            }
            proof {
                vds = next;
            }
        }
        assert(all.take(vds.len() as int) =~= all);
        Ok(m)
    }
}

/// The options of a read-write lock.
pub struct Rw {
    pub read: Method,
    pub write: Method,
}

impl View for Rw {
    type V = RwModel;

    open spec fn view(&self) -> RwModel {
        RwModel { read: self.read@, write: self.write@ }
    }
}

impl Rw {
    /// Options that set nothing.
    pub fn new() -> (r: Rw)
        ensures
            r@ == RwModel::empty(),
    {
        Rw { read: Method::new(), write: Method::new() }
    }

    /// Applies one argument to the options read so far.
    /// Applies one argument to the options read so far, given what syn's
    /// check of its value gave (read only for `read`, `write`, `read_vis` and
    /// `write_vis`). A nested list is read with verdicts of its own.
    pub fn apply(&mut self, a: MetaArg, check: Result<(), syn::Error>) -> (r: Result<(), ConfigError>)
        ensures
            match a.body {
                MetaBody::List(_) => exists|nested: Seq<Verdict>|
                    reports(
                        #[trigger] rw_step(old(self)@, a, verdict(None, check is Ok, nested)),
                        r,
                        final(self)@,
                    ),
                _ => reports(
                    rw_step(old(self)@, a, verdict(None, check is Ok, Seq::empty())),
                    r,
                    final(self)@,
                ),
            },
    {
        let ghost before = self@;
        let ghost ga = a;
        let ghost ok = check is Ok;
        match a.body {
            MetaBody::NameValue(v) => {
                if !a.path.single() {
                    return Err(ConfigError::NotIdent);
                }
                let key = path_to_ident(&a.path);
                if text_is(&key, "write_vis") {
                    let vis = match accepted_value(&v, check) {
                        Ok(x) => x,
                        Err(e) => return Err(e),
                    };
                    if self.write.vis.is_some() {
                        return Err(ConfigError::DuplicateKey(key));
                    }
                    self.write.vis = Some(vis);
                    Ok(())
                } else if text_is(&key, "write") {
                    let name = match accepted_value(&v, check) {
                        Ok(x) => x,
                        Err(e) => return Err(e),
                    };
                    if self.write.name.is_some() {
                        return Err(ConfigError::DuplicateKey(key));
                    }
                    self.write.name = Some(name);
                    Ok(())
                } else if text_is(&key, "read_vis") {
                    let vis = match accepted_value(&v, check) {
                        Ok(x) => x,
                        Err(e) => return Err(e),
                    };
                    if self.read.vis.is_some() {
                        return Err(ConfigError::DuplicateKey(key));
                    }
                    self.read.vis = Some(vis);
                    Ok(())
                } else if text_is(&key, "read") {
                    let name = match accepted_value(&v, check) {
                        Ok(x) => x,
                        Err(e) => return Err(e),
                    };
                    if self.read.name.is_some() {
                        return Err(ConfigError::DuplicateKey(key));
                    }
                    self.read.name = Some(name);
                    Ok(())
                } else {
                    Err(ConfigError::UnexpectedKey(key))
                }
            },
            MetaBody::List(nested) => {
                let ghost none = verdict(None, ok, Seq::empty());
                if !a.path.single() {
                    assert(rw_step(before, ga, none) == Err::<RwModel, Fault>(Fault::NotIdent));
                    return Err(ConfigError::NotIdent);
                }
                let key = path_to_ident(&a.path);
                let is_read = text_is(&key, "read");
                if !is_read && !text_is(&key, "write") {
                    assert(rw_step(before, ga, none) == Err::<RwModel, Fault>(
                        Fault::UnexpectedKey(key@),
                    ));
                    return Err(ConfigError::UnexpectedKey(key));
                }
                let args = match nested {
                    Ok(args) => args,
                    Err(e) => {
                        assert(rw_step(before, ga, none) == Err::<RwModel, Fault>(Fault::Syntax));
                        return Err(ConfigError::Syntax(e));
                    },
                };
                let ghost nargs = args@;
                let pr = Method::parse(args);
                let ghost gpr = pr;
                let ghost nv = choose|v: Seq<Verdict>|
                    #[trigger] method_of(nargs, v) == (match gpr {
                        Ok(m) => Ok::<MethodModel, Fault>(m@),
                        Err(e) => Err::<MethodModel, Fault>(e.fault()),
                    });
                let m = match pr {
                    Ok(m) => m,
                    Err(e) => {
                        assert(rw_step(before, ga, verdict(None, ok, nv)) == Err::<RwModel, Fault>(
                            e.fault(),
                        ));
                        return Err(e);
                    },
                };
                if is_read {
                    self.read = m;
                } else {
                    self.write = m;
                }
                assert(rw_step(before, ga, verdict(None, ok, nv)) == Ok::<RwModel, Fault>(self@));
                Ok(())
            },
            MetaBody::Word => Err(ConfigError::UnexpectedValue),
        }
    }

    /// Reads the options of a read-write lock from its arguments; whatever
    /// syn's checks of their values gave, the result is what the arguments say
    /// with those verdicts.
    pub fn parse(args: Vec<MetaArg>) -> (r: Result<Rw, ConfigError>)
        ensures
            exists|vds: Seq<Verdict>|
                #[trigger] rw_of(args@, vds) == (match r {
                    Ok(x) => Ok::<RwModel, Fault>(x@),
                    Err(e) => Err::<RwModel, Fault>(e.fault()),
                }),
    {
        let ghost all = args@;
        let ghost mut vds: Seq<Verdict> = Seq::empty();
        let mut rest = args;
        let mut rw = Rw::new();
        assert(all.take(0) =~= Seq::<MetaArg>::empty());
        while rest.len() > 0
            invariant
                all == args@,
                vds.len() <= all.len(),
                rest@ == all.subrange(vds.len() as int, all.len() as int),
                rw_of(all.take(vds.len() as int), vds) == Ok::<RwModel, Fault>(rw@),
            decreases rest.len(),
        {
            let a = rest.remove(0);
            let check = rw_check(&a);
            let ghost i = vds.len() as int;
            let ghost before = rw@;
            let ghost ga = a;
            let ghost lo = None;
            let ghost ok = check is Ok;
            let r = rw.apply(a, check);
            let ghost gr = r;
            let ghost vd = if ga.body is List {
                let nested = choose|n: Seq<Verdict>|
                    reports(#[trigger] rw_step(before, ga, verdict(lo, ok, n)), gr, rw@);
                verdict(lo, ok, nested)
            } else {
                verdict(lo, ok, Seq::empty())
            };
            let ghost next = vds.push(vd);
            proof {
                assert(all[i] == ga);
                lemma_fold_verdicts(RwModel::empty(), rw_stepper(), all.take(i), vds, next);
                assert(all.take(i + 1).drop_last() =~= all.take(i));
                assert(rw_of(all.take(i + 1), next) == rw_step(before, ga, vd));
            }
            match r {
                Ok(_) => {},
                Err(e) => {
                    proof {
                        lemma_fold_stops(RwModel::empty(), rw_stepper(), all, next, i + 1);
                        assert(rw_of(args@, next) == Err::<RwModel, Fault>(e.fault()));
                    }
                    return Err(e);
                },
            }
            proof {
                vds = next;
            }
        }
        assert(all.take(vds.len() as int) =~= all);
        Ok(rw)
    }
}

/// The lock that protects the wrapped value, with the options of its guard
/// methods.
pub enum Lock {
    Mutex(Method),
    Rw(Rw),
    Arc,
}

impl View for Lock {
    type V = LockModel;

    open spec fn view(&self) -> LockModel {
        match self {
            Lock::Mutex(m) => LockModel::Mutex(m@),
            Lock::Rw(rw) => LockModel::Rw(rw@),
            Lock::Arc => LockModel::Arc,
        }
    }
}

impl Lock {
    /// The lock that `lock = ".."` names, by the printed form `t` of its
    /// value: `mutex`, `rwlock` or `none`.
    pub fn named(t: &String) -> (r: Option<Lock>)
        ensures
            opt_lock_model(r) == lock_named(t@),
    {
        if text_is(t, "mutex") {
            Some(Lock::Mutex(Method::new()))
        } else if text_is(t, "rwlock") {
            Some(Lock::Rw(Rw::new()))
        } else if text_is(t, "none") {
            Some(Lock::Arc)
        } else {
            None
        }
    }
}

/// The attribute's options.
pub struct Config {
    pub struct_vis: Option<String>,
    pub lock: Option<Lock>,
    pub name: Option<String>,
    pub metas: Vec<MetaArg>,
}

pub open spec fn opt_lock_model(l: Option<Lock>) -> Option<LockModel> {
    match l {
        Some(l) => Some(l@),
        None => None,
    }
}

impl View for Config {
    type V = ConfigModel;

    open spec fn view(&self) -> ConfigModel {
        ConfigModel {
            struct_vis: opt_text(self.struct_vis),
            lock: opt_lock_model(self.lock),
            name: opt_text(self.name),
            metas: self.metas@,
        }
    }
}

impl Config {
    /// Options that set nothing.
    pub fn new() -> (r: Config)
        ensures
            r@ == ConfigModel::empty(),
    {
        Config { struct_vis: None, lock: None, name: None, metas: Vec::new() }
    }

    /// Applies one argument of the attribute to the options read so far,
    /// given what lexing its unquoted value gave (read only for a
    /// `key = "value"` argument) and what syn's check of that value gave (read
    /// only for `vis` and `rename`). A nested list is read with verdicts of
    /// its own.
    pub fn apply(
        &mut self,
        a: MetaArg,
        lexed: Result<String, proc_macro2::LexError>,
        check: Result<(), syn::Error>,
    ) -> (r: Result<(), ConfigError>)
        ensures
            match a.body {
                MetaBody::List(_) => exists|nested: Seq<Verdict>|
                    reports(
                        #[trigger] config_step(
                            old(self)@,
                            a,
                            verdict(lex_outcome(&lexed), check is Ok, nested),
                        ),
                        r,
                        final(self)@,
                    ),
                _ => reports(
                    config_step(
                        old(self)@,
                        a,
                        verdict(lex_outcome(&lexed), check is Ok, Seq::empty()),
                    ),
                    r,
                    final(self)@,
                ),
            },
    {
        let ghost before = self@;
        let ghost ga = a;
        let ghost lo = lex_outcome(&lexed);
        let ghost ok = check is Ok;
        let ghost none = verdict(lo, ok, Seq::empty());
        if !a.path.single() {
            assert(config_step(before, ga, none) == Err::<ConfigModel, Fault>(Fault::NotIdent));
            return Err(ConfigError::NotIdent);
        }
        let key = path_to_ident(&a.path);
        match &a.body {
            MetaBody::Word => {
                if text_is(&key, "mutex") {
                    if self.lock.is_some() {
                        return Err(ConfigError::DuplicateKey(key));
                    }
                    self.lock = Some(Lock::Mutex(Method::new()));
                    Ok(())
                } else if text_is(&key, "rwlock") {
                    if self.lock.is_some() {
                        return Err(ConfigError::DuplicateKey(key));
                    }
                    self.lock = Some(Lock::Rw(Rw::new()));
                    Ok(())
                } else {
                    self.metas.push(a);
                    Ok(())
                }
            },
            MetaBody::NameValue(v) => {
                let t = match lexed {
                    Ok(t) => t,
                    Err(e) => return Err(ConfigError::Lex(e)),
                };
                if text_is(&key, "vis") {
                    let vis = match accepted_value(v, check) {
                        Ok(x) => x,
                        Err(e) => return Err(e),
                    };
                    if self.struct_vis.is_some() {
                        return Err(ConfigError::DuplicateKey(key));
                    }
                    self.struct_vis = Some(vis);
                    Ok(())
                } else if text_is(&key, "lock") {
                    let lock = match Lock::named(&t) {
                        Some(l) => l,
                        None => return Err(ConfigError::UnknownLock(t)),
                    };
                    if self.lock.is_some() {
                        return Err(ConfigError::DuplicateKey(key));
                    }
                    self.lock = Some(lock);
                    Ok(())
                } else if text_is(&key, "rename") {
                    let name = match accepted_value(v, check) {
                        Ok(x) => x,
                        Err(e) => return Err(e),
                    };
                    if self.name.is_some() {
                        return Err(ConfigError::DuplicateKey(key));
                    }
                    self.name = Some(name);
                    Ok(())
                } else {
                    self.metas.push(a);
                    Ok(())
                }
            },
            MetaBody::List(_) => {
                let is_mutex = text_is(&key, "mutex");
                if !is_mutex && !text_is(&key, "rwlock") {
                    self.metas.push(a);
                    assert(config_step(before, ga, none) == Ok::<ConfigModel, Fault>(self@));
                    return Ok(());
                }
                if self.lock.is_some() {
                    assert(config_step(before, ga, none) == Err::<ConfigModel, Fault>(
                        Fault::DuplicateKey(key@),
                    ));
                    return Err(ConfigError::DuplicateKey(key));
                }
                let args = match a.body {
                    MetaBody::List(Ok(args)) => args,
                    MetaBody::List(Err(e)) => {
                        assert(config_step(before, ga, none) == Err::<ConfigModel, Fault>(
                            Fault::Syntax,
                        ));
                        return Err(ConfigError::Syntax(e));
                    },
                    _ => return Err(ConfigError::UnexpectedValue),
                };
                let ghost nargs = args@;
                if is_mutex {
                    let pr = Method::parse(args);
                    let ghost gpr = pr;
                    let ghost nv = choose|v: Seq<Verdict>|
                        #[trigger] method_of(nargs, v) == (match gpr {
                            Ok(m) => Ok::<MethodModel, Fault>(m@),
                            Err(e) => Err::<MethodModel, Fault>(e.fault()),
                        });
                    match pr {
                        Ok(m) => {
                            self.lock = Some(Lock::Mutex(m));
                            assert(config_step(before, ga, verdict(lo, ok, nv)) == Ok::<
                                ConfigModel,
                                Fault,
                            >(self@));
                            Ok(())
                        },
                        Err(e) => {
                            assert(config_step(before, ga, verdict(lo, ok, nv)) == Err::<
                                ConfigModel,
                                Fault,
                            >(e.fault()));
                            Err(e)
                        },
                    }
                } else {
                    let pr = Rw::parse(args);
                    let ghost gpr = pr;
                    let ghost nv = choose|v: Seq<Verdict>|
                        #[trigger] rw_of(nargs, v) == (match gpr {
                            Ok(rw) => Ok::<RwModel, Fault>(rw@),
                            Err(e) => Err::<RwModel, Fault>(e.fault()),
                        });
                    match pr {
                        Ok(rw) => {
                            self.lock = Some(Lock::Rw(rw));
                            assert(config_step(before, ga, verdict(lo, ok, nv)) == Ok::<
                                ConfigModel,
                                Fault,
                            >(self@));
                            Ok(())
                        },
                        Err(e) => {
                            assert(config_step(before, ga, verdict(lo, ok, nv)) == Err::<
                                ConfigModel,
                                Fault,
                            >(e.fault()));
                            Err(e)
                        },
                    }
                }
            },
        }
    }

    /// Reads the attribute's options from its arguments, lexing the value of
    /// each `key = "value"` argument and having syn check those of `vis` and
    /// `rename`. Whatever these gave, the result is what the arguments say with
    /// those verdicts.
    pub fn parse(args: Vec<MetaArg>) -> (r: Result<Config, ConfigError>)
        ensures
            exists|vds: Seq<Verdict>|
                #[trigger] config_of(args@, vds) == (match r {
                    Ok(x) => Ok::<ConfigModel, Fault>(x@),
                    Err(e) => Err::<ConfigModel, Fault>(e.fault()),
                }),
    {
        let ghost all = args@;
        let ghost mut vds: Seq<Verdict> = Seq::empty();
        let mut rest = args;
        let mut c = Config::new();
        assert(all.take(0) =~= Seq::<MetaArg>::empty());
        while rest.len() > 0
            invariant
                all == args@,
                vds.len() <= all.len(),
                rest@ == all.subrange(vds.len() as int, all.len() as int),
                config_of(all.take(vds.len() as int), vds) == Ok::<ConfigModel, Fault>(c@),
            decreases rest.len(),
        {
            let a = rest.remove(0);
            let lexed = lex_value(&a);
            let check = config_check(&a);
            let ghost i = vds.len() as int;
            let ghost before = c@;
            let ghost ga = a;
            let ghost lo = lex_outcome(&lexed);
            let ghost ok = check is Ok;
            let r = c.apply(a, lexed, check);
            let ghost gr = r;
            let ghost vd = if ga.body is List {
                let nested = choose|n: Seq<Verdict>|
                    reports(#[trigger] config_step(before, ga, verdict(lo, ok, n)), gr, c@);
                verdict(lo, ok, nested)
            } else {
                verdict(lo, ok, Seq::empty())
            };
            let ghost next = vds.push(vd);
            proof {
                assert(all[i] == ga);
                lemma_fold_verdicts(ConfigModel::empty(), config_stepper(), all.take(i), vds, next);
                assert(all.take(i + 1).drop_last() =~= all.take(i));
                assert(config_of(all.take(i + 1), next) == config_step(before, ga, vd));
            }
            match r {
                Ok(_) => {},
                Err(e) => {
                    proof {
                        lemma_fold_stops(ConfigModel::empty(), config_stepper(), all, next, i + 1);
                        assert(config_of(args@, next) == Err::<ConfigModel, Fault>(e.fault()));
                    }
                    return Err(e);
                },
            }
            proof {
                vds = next;
            }
        }
        assert(all.take(vds.len() as int) =~= all);
        Ok(c)
    }
}

} // verus!
