use vstd::prelude::*;
use crate::meta::{MetaArg, MetaBody};
use crate::tokens::unquoted;

verus! {

/// What the options of one guard method say: its visibility and name (each as
/// the unquoted text of its value, where given) and the attributes handed on
/// to it.
pub struct MethodModel {
    pub vis: Option<Seq<char>>,
    pub name: Option<Seq<char>>,
    pub metas: Seq<MetaArg>,
}

/// The options of a read-write lock: one method to read, one to write.
pub struct RwModel {
    pub read: MethodModel,
    pub write: MethodModel,
}

/// The kind of lock that protects the wrapped value.
pub enum LockModel {
    Mutex(MethodModel),
    Rw(RwModel),
    Arc,
}

/// What the attribute's options say as a whole.
pub struct ConfigModel {
    pub struct_vis: Option<Seq<char>>,
    pub lock: Option<LockModel>,
    pub name: Option<Seq<char>>,
    pub metas: Seq<MetaArg>,
}

/// Why the options are rejected.
pub enum Fault {
    /// A key that is not a single identifier.
    NotIdent,
    /// A key given twice (or a second lock kind).
    DuplicateKey(Seq<char>),
    /// A key that the options of a read-write lock do not know.
    UnexpectedKey(Seq<char>),
    /// A bare word among the options of a read-write lock.
    UnexpectedValue,
    /// `lock = ".."` with a value other than `mutex`, `rwlock` or `none`.
    UnknownLock(Seq<char>),
    /// A value of the attribute's own options that does not lex.
    Lex,
    /// A value, or a nested list, that does not parse.
    Syntax,
}

/// What the outside calls made for one argument gave: the printed tokens of
/// its unquoted value, or `None` where that value did not lex; whether syn
/// accepted that value as the visibility or identifier its key asks for; and,
/// for a nested list, the same for each argument in it.
pub struct Verdict {
    pub lexed: Option<Seq<char>>,
    pub accepted: bool,
    pub nested: Seq<Verdict>,
}

pub open spec fn verdict(lexed: Option<Seq<char>>, accepted: bool, nested: Seq<Verdict>) -> Verdict {
    Verdict { lexed, accepted, nested }
}

impl MethodModel {
    pub open spec fn empty() -> MethodModel {
        MethodModel { vis: None, name: None, metas: Seq::empty() }
    }
}

impl RwModel {
    pub open spec fn empty() -> RwModel {
        RwModel { read: MethodModel::empty(), write: MethodModel::empty() }
    }
}

impl ConfigModel {
    pub open spec fn empty() -> ConfigModel {
        ConfigModel { struct_vis: None, lock: None, name: None, metas: Seq::empty() }
    }
}

/// Reads `args` from left to right with `step`, the argument at position `i`
/// with the verdict `vds[i]`, starting from `init`; the first fault ends the
/// reading.
pub open spec fn fold_args<M>(
    init: M,
    step: spec_fn(M, MetaArg, Verdict) -> Result<M, Fault>,
    args: Seq<MetaArg>,
    vds: Seq<Verdict>,
) -> Result<M, Fault>
    decreases args.len(),
{
    if args.len() == 0 {
        Ok(init)
    } else {
        match fold_args(init, step, args.drop_last(), vds) {
            Ok(m) => step(m, args.last(), vds[args.len() - 1]),
            Err(f) => Err(f),
        }
    }
}

/// Once a prefix of the arguments is rejected, so is the whole list, for the
/// same fault.
pub proof fn lemma_fold_stops<M>(
    init: M,
    step: spec_fn(M, MetaArg, Verdict) -> Result<M, Fault>,
    args: Seq<MetaArg>,
    vds: Seq<Verdict>,
    i: int,
)
    requires
        0 <= i <= args.len(),
        fold_args(init, step, args.take(i), vds) is Err,
    ensures
        fold_args(init, step, args, vds) == fold_args(init, step, args.take(i), vds),
    decreases args.len(),
{
    if i == args.len() {
        assert(args.take(i) =~= args);
    } else {
        assert(args.drop_last().take(i) =~= args.take(i));
        lemma_fold_stops(init, step, args.drop_last(), vds, i);
    }
}

/// The reading of the arguments depends only on the verdicts at their
/// positions.
pub proof fn lemma_fold_verdicts<M>(
    init: M,
    step: spec_fn(M, MetaArg, Verdict) -> Result<M, Fault>,
    args: Seq<MetaArg>,
    v1: Seq<Verdict>,
    v2: Seq<Verdict>,
)
    requires
        forall|j: int| 0 <= j < args.len() ==> v1[j] == v2[j],
    ensures
        fold_args(init, step, args, v1) == fold_args(init, step, args, v2),
    decreases args.len(),
{
    if args.len() > 0 {
        lemma_fold_verdicts(init, step, args.drop_last(), v1, v2);
    }
}

/// The value of a `key = "value"` option that syn must accept (as a
/// visibility or an identifier): its unquoted text where it did.
pub open spec fn checked_value(v: Seq<char>, accepted: bool) -> Result<Seq<char>, Fault> {
    if accepted {
        Ok(unquoted(v))
    } else {
        Err(Fault::Syntax)
    }
}

/// One argument among the options of a guard method: `vis = ".."` and
/// `method = ".."` set the visibility and the name once each; every other
/// argument is an attribute handed on to the method.
pub open spec fn method_step(m: MethodModel, a: MetaArg, vd: Verdict) -> Result<MethodModel, Fault> {
    match a.body {
        MetaBody::NameValue(v) => if !a.path.is_single() {
            Err(Fault::NotIdent)
        } else if a.path.ident() == "vis"@ {
            match checked_value(v@, vd.accepted) {
                Err(f) => Err(f),
                Ok(t) => if m.vis is Some {
                    Err(Fault::DuplicateKey(a.path.ident()))
                } else {
                    Ok(MethodModel { vis: Some(t), ..m })
                },
            }
        } else if a.path.ident() == "method"@ {
            match checked_value(v@, vd.accepted) {
                Err(f) => Err(f),
                Ok(t) => if m.name is Some {
                    Err(Fault::DuplicateKey(a.path.ident()))
                } else {
                    Ok(MethodModel { name: Some(t), ..m })
                },
            }
        } else {
            Ok(MethodModel { metas: m.metas.push(a), ..m })
        },
        _ => Ok(MethodModel { metas: m.metas.push(a), ..m }),
    }
}

pub open spec fn method_stepper() -> spec_fn(MethodModel, MetaArg, Verdict) -> Result<
    MethodModel,
    Fault,
> {
    |m: MethodModel, a: MetaArg, vd: Verdict| method_step(m, a, vd)
}

/// What a list of guard-method options says, with the given verdicts.
pub open spec fn method_of(args: Seq<MetaArg>, vds: Seq<Verdict>) -> Result<MethodModel, Fault> {
    fold_args(MethodModel::empty(), method_stepper(), args, vds)
}

/// One argument among the options of a read-write lock: `read_vis`, `read`,
/// `write_vis` and `write` set each method's visibility and name once each;
/// `read(..)` and `write(..)` replace a method's options with those listed;
/// any other key, and a bare word, are rejected.
pub open spec fn rw_step(rw: RwModel, a: MetaArg, vd: Verdict) -> Result<RwModel, Fault> {
    match a.body {
        MetaBody::NameValue(v) => if !a.path.is_single() {
            Err(Fault::NotIdent)
        } else if a.path.ident() == "write_vis"@ {
            match checked_value(v@, vd.accepted) {
                Err(f) => Err(f),
                Ok(t) => if rw.write.vis is Some {
                    Err(Fault::DuplicateKey(a.path.ident()))
                } else {
                    Ok(RwModel { write: MethodModel { vis: Some(t), ..rw.write }, ..rw })
                },
            }
        } else if a.path.ident() == "write"@ {
            match checked_value(v@, vd.accepted) {
                Err(f) => Err(f),
                Ok(t) => if rw.write.name is Some {
                    Err(Fault::DuplicateKey(a.path.ident()))
                } else {
                    Ok(RwModel { write: MethodModel { name: Some(t), ..rw.write }, ..rw })
                },
            }
        } else if a.path.ident() == "read_vis"@ {
            match checked_value(v@, vd.accepted) {
                Err(f) => Err(f),
                Ok(t) => if rw.read.vis is Some {
                    Err(Fault::DuplicateKey(a.path.ident()))
                } else {
                    Ok(RwModel { read: MethodModel { vis: Some(t), ..rw.read }, ..rw })
                },
            }
        } else if a.path.ident() == "read"@ {
            match checked_value(v@, vd.accepted) {
                Err(f) => Err(f),
                Ok(t) => if rw.read.name is Some {
                    Err(Fault::DuplicateKey(a.path.ident()))
                } else {
                    Ok(RwModel { read: MethodModel { name: Some(t), ..rw.read }, ..rw })
                },
            }
        } else {
            Err(Fault::UnexpectedKey(a.path.ident()))
        },
        MetaBody::List(nested) => if !a.path.is_single() {
            Err(Fault::NotIdent)
        } else if a.path.ident() == "read"@ {
            match nested {
                Err(_) => Err(Fault::Syntax),
                Ok(args) => match method_of(args@, vd.nested) {
                    Err(f) => Err(f),
                    Ok(m) => Ok(RwModel { read: m, ..rw }),
                },
            }
        } else if a.path.ident() == "write"@ {
            match nested {
                Err(_) => Err(Fault::Syntax),
                Ok(args) => match method_of(args@, vd.nested) {
                    Err(f) => Err(f),
                    Ok(m) => Ok(RwModel { write: m, ..rw }),
                },
            }
        } else {
            Err(Fault::UnexpectedKey(a.path.ident()))
        },
        MetaBody::Word => Err(Fault::UnexpectedValue),
    }
}

pub open spec fn rw_stepper() -> spec_fn(RwModel, MetaArg, Verdict) -> Result<RwModel, Fault> {
    |rw: RwModel, a: MetaArg, vd: Verdict| rw_step(rw, a, vd)
}

/// What a list of read-write lock options says, with the given verdicts.
pub open spec fn rw_of(args: Seq<MetaArg>, vds: Seq<Verdict>) -> Result<RwModel, Fault> {
    fold_args(RwModel::empty(), rw_stepper(), args, vds)
}

/// The lock that `lock = ".."` names, by the printed form of its value.
pub open spec fn lock_named(t: Seq<char>) -> Option<LockModel> {
    if t == "mutex"@ {
        Some(LockModel::Mutex(MethodModel::empty()))
    } else if t == "rwlock"@ {
        Some(LockModel::Rw(RwModel::empty()))
    } else if t == "none"@ {
        Some(LockModel::Arc)
    } else {
        None
    }
}

/// Sets the lock once.
pub open spec fn with_lock(c: ConfigModel, key: Seq<char>, l: LockModel) -> Result<
    ConfigModel,
    Fault,
> {
    if c.lock is Some {
        Err(Fault::DuplicateKey(key))
    } else {
        Ok(ConfigModel { lock: Some(l), ..c })
    }
}

/// One argument of the attribute, with its verdict. The word `mutex` or `rwlock`, the option
/// `lock = "mutex" | "rwlock" | "none"`, and the lists `mutex(..)` and
/// `rwlock(..)` choose the lock, once; `vis = ".."` sets the generated type's
/// visibility and `rename = ".."` its name, once each; every other argument is
/// an attribute handed on to the generated type. Every key must be a single
/// identifier, and every `key = value` value must lex.
pub open spec fn config_step(c: ConfigModel, a: MetaArg, vd: Verdict) -> Result<
    ConfigModel,
    Fault,
> {
    if !a.path.is_single() {
        Err(Fault::NotIdent)
    } else {
        let key = a.path.ident();
        match a.body {
            MetaBody::Word => if key == "mutex"@ {
                with_lock(c, key, LockModel::Mutex(MethodModel::empty()))
            } else if key == "rwlock"@ {
                with_lock(c, key, LockModel::Rw(RwModel::empty()))
            } else {
                Ok(ConfigModel { metas: c.metas.push(a), ..c })
            },
            MetaBody::NameValue(v) => match vd.lexed {
                None => Err(Fault::Lex),
                Some(t) => if key == "vis"@ {
                    if !vd.accepted {
                        Err(Fault::Syntax)
                    } else if c.struct_vis is Some {
                        Err(Fault::DuplicateKey(key))
                    } else {
                        Ok(ConfigModel { struct_vis: Some(unquoted(v@)), ..c })
                    }
                } else if key == "lock"@ {
                    match lock_named(t) {
                        None => Err(Fault::UnknownLock(t)),
                        Some(l) => with_lock(c, key, l),
                    }
                } else if key == "rename"@ {
                    if !vd.accepted {
                        Err(Fault::Syntax)
                    } else if c.name is Some {
                        Err(Fault::DuplicateKey(key))
                    } else {
                        Ok(ConfigModel { name: Some(unquoted(v@)), ..c })
                    }
                } else {
                    Ok(ConfigModel { metas: c.metas.push(a), ..c })
                },
            },
            MetaBody::List(nested) => if key == "mutex"@ {
                if c.lock is Some {
                    Err(Fault::DuplicateKey(key))
                } else {
                    match nested {
                        Err(_) => Err(Fault::Syntax),
                        Ok(args) => match method_of(args@, vd.nested) {
                            Err(f) => Err(f),
                            Ok(m) => Ok(ConfigModel { lock: Some(LockModel::Mutex(m)), ..c }),
                        },
                    }
                }
            } else if key == "rwlock"@ {
                if c.lock is Some {
                    Err(Fault::DuplicateKey(key))
                } else {
                    match nested {
                        Err(_) => Err(Fault::Syntax),
                        Ok(args) => match rw_of(args@, vd.nested) {
                            Err(f) => Err(f),
                            Ok(rw) => Ok(ConfigModel { lock: Some(LockModel::Rw(rw)), ..c }),
                        },
                    }
                }
            } else {
                Ok(ConfigModel { metas: c.metas.push(a), ..c })
            },
        }
    }
}

pub open spec fn config_stepper() -> spec_fn(ConfigModel, MetaArg, Verdict) -> Result<
    ConfigModel,
    Fault,
> {
    |c: ConfigModel, a: MetaArg, vd: Verdict| config_step(c, a, vd)
}

/// What the attribute's arguments say, with the given verdicts.
pub open spec fn config_of(args: Seq<MetaArg>, vds: Seq<Verdict>) -> Result<ConfigModel, Fault> {
    fold_args(ConfigModel::empty(), config_stepper(), args, vds)
}

} // verus!
