use vstd::prelude::*;
use crate::config::{Config, Lock, Method, opt_text};
use crate::meta::MetaArg;
use crate::config::ConfigError;
use crate::model::{LockModel, MethodModel, ConfigModel, Fault, Verdict, config_of};

verus! {

/// The pointer type that the generated type holds.
#[derive(PartialEq, Eq, Structural, Clone, Copy, Debug)]
pub enum Inner {
    /// `Arc<Mutex<T>>`.
    Mutex,
    /// `Arc<RwLock<T>>`.
    RwLock,
    /// `Arc<T>`.
    Plain,
}

/// What a guard method acquires.
#[derive(PartialEq, Eq, Structural, Clone, Copy, Debug)]
pub enum GuardKind {
    /// The mutex's guard.
    Lock,
    /// The read-write lock's shared guard.
    Read,
    /// The read-write lock's exclusive guard.
    Write,
}

/// A guard method of the generated type.
pub struct Guard {
    pub kind: GuardKind,
    /// The method's name, as the options wrote it (unquoted) or by default.
    pub name: String,
    /// The method's visibility, as the options wrote it (unquoted); `None`
    /// for that of the generated type.
    pub vis: Option<String>,
    /// The attributes put on the method.
    pub metas: Vec<MetaArg>,
}

/// What is generated beside the wrapped structure: a type holding it behind
/// `inner`, a conversion from it, and the guard methods.
pub struct Expansion {
    /// The generated type's visibility, as the options wrote it (unquoted);
    /// `None` for that of the wrapped structure.
    pub vis: Option<String>,
    /// The generated type's name, as `rename` wrote it (unquoted) or by
    /// default.
    pub name: String,
    pub inner: Inner,
    /// The attributes put on the generated type.
    pub metas: Vec<MetaArg>,
    pub guards: Vec<Guard>,
}

/// A guard method as a model.
pub struct GuardModel {
    pub kind: GuardKind,
    pub name: Seq<char>,
    pub vis: Option<Seq<char>>,
    pub metas: Seq<MetaArg>,
}

impl View for Guard {
    type V = GuardModel;

    open spec fn view(&self) -> GuardModel {
        GuardModel { kind: self.kind, name: self.name@, vis: opt_text(self.vis), metas: self.metas@ }
    }
}

/// The guard method that a method's options describe, named `default` where
/// they give no name.
pub open spec fn guard_of(kind: GuardKind, m: MethodModel, default: Seq<char>) -> GuardModel {
    GuardModel {
        kind,
        name: match m.name {
            Some(n) => n,
            None => default,
        },
        vis: m.vis,
        metas: m.metas,
    }
}

/// The lock chosen, a plain `Arc` where none is.
pub open spec fn lock_or_default(l: Option<LockModel>) -> LockModel {
    match l {
        Some(l) => l,
        None => LockModel::Arc,
    }
}

/// The pointer type for a lock.
pub open spec fn inner_of(l: LockModel) -> Inner {
    match l {
        LockModel::Mutex(_) => Inner::Mutex,
        LockModel::Rw(_) => Inner::RwLock,
        LockModel::Arc => Inner::Plain,
    }
}

/// The guard methods for a lock: `lock_guard` for a mutex, `read_guard` and
/// `write_guard` for a read-write lock, none for a plain `Arc`, unless the
/// options name them otherwise.
pub open spec fn guards_of(l: LockModel) -> Seq<GuardModel> {
    match l {
        LockModel::Mutex(m) => seq![guard_of(GuardKind::Lock, m, "lock_guard"@)],
        LockModel::Rw(rw) => seq![
            guard_of(GuardKind::Read, rw.read, "read_guard"@),
            guard_of(GuardKind::Write, rw.write, "write_guard"@),
        ],
        LockModel::Arc => Seq::empty(),
    }
}

/// The generated type's name: the one given, else `Arc` before the wrapped
/// structure's name.
pub open spec fn wrapper_name(given: Option<Seq<char>>, struct_name: Seq<char>) -> Seq<char> {
    match given {
        Some(n) => n,
        None => "Arc"@ + struct_name,
    }
}

impl Expansion {
    pub open spec fn guards_view(&self) -> Seq<GuardModel> {
        self.guards@.map_values(|g: Guard| g@)
    }
}

fn make_guard(kind: GuardKind, m: Method, default: &str) -> (r: Guard)
    ensures
        r@ == guard_of(kind, m@, default@),
{
    let name = match m.name {
        Some(n) => n,
        None => String::from_str(default),
    };
    Guard { kind, name, vis: m.vis, metas: m.metas }
}

/// Resolves the options read for the structure named `struct_name` into what
/// is generated.
pub fn expand(config: Config, struct_name: &str) -> (r: Expansion)
    ensures
        r.vis == config.struct_vis,
        r.name@ == wrapper_name(config@.name, struct_name@),
        r.inner == inner_of(lock_or_default(config@.lock)),
        r.metas@ == config@.metas,
        r.guards_view() == guards_of(lock_or_default(config@.lock)),
{
    let name = match config.name {
        Some(n) => n,
        None => {
            let mut n = String::from_str("Arc");
            n.append(struct_name);
            n
        },
    };
    let lock = match config.lock {
        Some(l) => l,
        None => Lock::Arc,
    };
    let (inner, guards) = match lock {
        Lock::Mutex(m) => (Inner::Mutex, vec![make_guard(GuardKind::Lock, m, "lock_guard")]),
        Lock::Rw(rw) => (
            Inner::RwLock,
            vec![
                make_guard(GuardKind::Read, rw.read, "read_guard"),
                make_guard(GuardKind::Write, rw.write, "write_guard"),
            ],
        ),
        Lock::Arc => (Inner::Plain, Vec::new()),
    };
    let r = Expansion { vis: config.struct_vis, name, inner, metas: config.metas, guards };
    assert(r.guards_view() =~= guards_of(lock_or_default(config@.lock)));
    r
}

/// Reads the attribute's arguments and resolves them for the structure named
/// `struct_name`: the plan of what is generated, or why the arguments are
/// rejected. Whatever lexing and syn's checks of the values gave, the result
/// is what the arguments say with those verdicts.
pub fn plan(args: Vec<MetaArg>, struct_name: &str) -> (r: Result<Expansion, ConfigError>)
    ensures
        exists|vds: Seq<Verdict>| plan_reports(r, #[trigger] config_of(args@, vds), struct_name@),
{
    match Config::parse(args) {
        Ok(c) => {
            let ghost cm = c@;
            let x = expand(c, struct_name);
            proof {
                let vds = choose|vds: Seq<Verdict>|
                    config_of(args@, vds) == Ok::<ConfigModel, Fault>(cm);
                assert(planned_from(x, config_of(args@, vds), struct_name@));
            }
            Ok(x)
        },
        Err(e) => Err(e),
    }
}

/// `r` reports the reading `c` of the options: the plan they give for the
/// structure named `struct_name`, or the same fault.
pub open spec fn plan_reports(
    r: Result<Expansion, ConfigError>,
    c: Result<ConfigModel, Fault>,
    struct_name: Seq<char>,
) -> bool {
    match r {
        Ok(x) => planned_from(x, c, struct_name),
        Err(e) => c == Err::<ConfigModel, Fault>(e.fault()),
    }
}

/// `x` is what the options `c` give for the structure named `struct_name`,
/// and `c` was read without fault.
pub open spec fn planned_from(x: Expansion, c: Result<ConfigModel, Fault>, struct_name: Seq<char>) -> bool {
    match c {
        Ok(c) => {
            &&& opt_text(x.vis) == c.struct_vis
            &&& x.name@ == wrapper_name(c.name, struct_name)
            &&& x.inner == inner_of(lock_or_default(c.lock))
            &&& x.metas@ == c.metas
            &&& x.guards_view() == guards_of(lock_or_default(c.lock))
        },
        Err(_) => false,
    }
}

} // verus!
