use vstd::prelude::*;

verus! {

pub type FunId = String;

pub type VarId = u32;

pub type JoinPointId = u32;

#[derive(Debug, Clone, Copy, PartialEq, Eq, Structural)]
pub enum IRType {
    Float,
    UInt8,
    UInt16,
    UInt32,
    UInt64,
    USize,
    Object,
    TObject,
    Irrelevant,
}

#[derive(Debug, Clone, Copy, PartialEq, Eq, Structural)]
pub struct Param {
    pub var: VarId,
    pub ty: IRType,
    pub borrowed: bool,
}

#[derive(Debug)]
pub enum Decl {
    FnDecl { name: FunId, params: Vec<Param>, ret_type: IRType, body: FnBody },
    ExternDecl { name: FunId, params: Vec<Param>, ret_type: IRType },
}

#[derive(Debug)]
pub struct CtorInfo {
    pub name: String,
    pub cidx: u16,
    pub size: u32,
    pub usize_fields: u32,
    pub scalar_size: u32,
}

#[derive(Debug)]
pub enum LitValue {
    Num(u64),
    Str(String),
}

#[derive(Debug, Clone, Copy, PartialEq, Eq, Structural)]
pub enum Arg {
    Var(VarId),
    Irrelevant,
}

#[derive(Debug)]
pub enum FnBody {
    VDecl { var: VarId, ty: IRType, expr: Expr, cont: Box<FnBody> },
    JDecl { jp: JoinPointId, params: Vec<Param>, body: Box<FnBody>, cont: Box<FnBody> },
    SetField { var: VarId, idx: u32, val: Arg, cont: Box<FnBody> },
    USet { var: VarId, idx: u32, val: VarId, cont: Box<FnBody> },
    SSet { var: VarId, n: u32, offset: u32, val: VarId, ty: IRType, cont: Box<FnBody> },
    SetTag { var: VarId, cidx: u16, cont: Box<FnBody> },
    Case { tid: String, scrutinee: VarId, alts: Vec<Alt> },
    Ret { arg: Arg },
    Jmp { jp: JoinPointId, args: Vec<Arg> },
    Unreachable,
}

#[derive(Debug)]
pub enum Expr {
    Ctor { info: CtorInfo, args: Vec<Arg> },
    Proj { idx: u32, var: VarId },
    UProj { idx: u32, var: VarId },
    SProj { n: u32, offset: u32, var: VarId },
    FAp { fun: FunId, args: Vec<Arg> },
    PAp { fun: FunId, args: Vec<Arg> },
    Ap { fun: VarId, args: Vec<Arg> },
    Box { ty: IRType, var: VarId },
    Unbox { var: VarId },
    Lit { val: LitValue },
    IsShared { var: VarId },
    Reset { n: u32, var: VarId },
    Reuse { var: VarId, info: CtorInfo, upd_header: bool, args: Vec<Arg> },
}

#[derive(Debug)]
pub enum Alt {
    Ctor { info: CtorInfo, body: FnBody },
    Default { body: FnBody },
}

/// Field indices of `proj` and `set` that a trace step can record (16 bits).
pub open spec fn spec_expr_wf(e: Expr) -> bool {
    match e {
        Expr::Proj { idx, .. } => idx <= u16::MAX,
        _ => true,
    }
}

/// Every `proj` and `set` in a body, its continuations, join points and case
/// alternatives names a field index that fits in 16 bits.
pub open spec fn spec_body_wf(b: FnBody) -> bool
    decreases b,
{
    match b {
        FnBody::VDecl { expr, cont, .. } => spec_expr_wf(expr) && spec_body_wf(*cont),
        FnBody::JDecl { body, cont, .. } => spec_body_wf(*body) && spec_body_wf(*cont),
        FnBody::SetField { idx, cont, .. } => idx <= u16::MAX && spec_body_wf(*cont),
        FnBody::USet { cont, .. } => spec_body_wf(*cont),
        FnBody::SSet { cont, .. } => spec_body_wf(*cont),
        FnBody::SetTag { cont, .. } => spec_body_wf(*cont),
        FnBody::Case { alts, .. } => spec_alts_wf(alts@),
        _ => true,
    }
}

pub open spec fn spec_alts_wf(alts: Seq<Alt>) -> bool
    decreases alts,
{
    forall|i: int| 0 <= i < alts.len() ==> spec_body_wf(#[trigger] alts[i].spec_body())
}

pub open spec fn spec_decl_wf(d: Decl) -> bool {
    match d {
        Decl::FnDecl { body, .. } => spec_body_wf(body),
        Decl::ExternDecl { .. } => true,
    }
}


impl Decl {
    pub open spec fn spec_name(&self) -> Seq<char> {
        match self {
            Decl::FnDecl { name, .. } => name@,
            Decl::ExternDecl { name, .. } => name@,
        }
    }

    pub open spec fn spec_params(&self) -> Seq<Param> {
        match self {
            Decl::FnDecl { params, .. } => params@,
            Decl::ExternDecl { params, .. } => params@,
        }
    }

    pub fn name(&self) -> (r: &str)
        ensures
            r@ == self.spec_name(),
    {
        match self {
            Decl::FnDecl { name, .. } => name.as_str(),
            Decl::ExternDecl { name, .. } => name.as_str(),
        }
    }

    pub fn params(&self) -> (r: &[Param])
        ensures
            r@ == self.spec_params(),
    {
        match self {
            Decl::FnDecl { params, .. } => params.as_slice(),
            Decl::ExternDecl { params, .. } => params.as_slice(),
        }
    }
}

impl Alt {
    pub open spec fn spec_body(&self) -> FnBody {
        match self {
            Alt::Ctor { body, .. } => *body,
            Alt::Default { body } => *body,
        }
    }

    pub fn body(&self) -> (r: &FnBody)
        ensures
            *r == self.spec_body(),
    {
        match self {
            Alt::Ctor { body, .. } => body,
            Alt::Default { body } => body,
        }
    }
}

pub fn clone_args(a: &Vec<Arg>) -> (r: Vec<Arg>)
    ensures
        r@ == a@,
{
    let mut r: Vec<Arg> = Vec::new();
    let mut i: usize = 0;
    while i < a.len()
        invariant
            i <= a@.len(),
            r@ == a@.subrange(0, i as int),
        decreases a@.len() - i,
    {
        r.push(a[i]);
        i = i + 1;
        assert(r@ =~= a@.subrange(0, i as int));
    }
    assert(a@.subrange(0, a@.len() as int) =~= a@);
    r
}

pub fn clone_params(a: &Vec<Param>) -> (r: Vec<Param>)
    ensures
        r@ == a@,
{
    let mut r: Vec<Param> = Vec::new();
    let mut i: usize = 0;
    while i < a.len()
        invariant
            i <= a@.len(),
            r@ == a@.subrange(0, i as int),
        decreases a@.len() - i,
    {
        r.push(a[i]);
        i = i + 1;
        assert(r@ =~= a@.subrange(0, i as int));
    }
    assert(a@.subrange(0, a@.len() as int) =~= a@);
    r
}

impl Clone for CtorInfo {
    fn clone(&self) -> (r: Self)
        ensures
            r == *self,
    {
        CtorInfo {
            name: self.name.clone(),
            cidx: self.cidx,
            size: self.size,
            usize_fields: self.usize_fields,
            scalar_size: self.scalar_size,
        }
    }
}

impl Clone for LitValue {
    fn clone(&self) -> (r: Self)
        ensures
            r == *self,
    {
        match self {
            LitValue::Num(n) => LitValue::Num(*n),
            LitValue::Str(s) => LitValue::Str(s.clone()),
        }
    }
}

impl Clone for Expr {
    /// A copy of the expression: the same variant with the same scalars,
    /// names and argument lists.
    fn clone(&self) -> (r: Self)
        ensures
            spec_expr_wf(r) == spec_expr_wf(*self),
            self is Proj ==> r == *self,
            r.model() == self.model(),
    {
        match self {
            Expr::Ctor { info, args } => Expr::Ctor { info: info.clone(), args: clone_args(args) },
            Expr::Proj { idx, var } => Expr::Proj { idx: *idx, var: *var },
            Expr::UProj { idx, var } => Expr::UProj { idx: *idx, var: *var },
            Expr::SProj { n, offset, var } => Expr::SProj { n: *n, offset: *offset, var: *var },
            Expr::FAp { fun, args } => Expr::FAp { fun: fun.clone(), args: clone_args(args) },
            Expr::PAp { fun, args } => Expr::PAp { fun: fun.clone(), args: clone_args(args) },
            Expr::Ap { fun, args } => Expr::Ap { fun: *fun, args: clone_args(args) },
            Expr::Box { ty, var } => Expr::Box { ty: *ty, var: *var },
            Expr::Unbox { var } => Expr::Unbox { var: *var },
            Expr::Lit { val } => Expr::Lit { val: val.clone() },
            Expr::IsShared { var } => Expr::IsShared { var: *var },
            Expr::Reset { n, var } => Expr::Reset { n: *n, var: *var },
            Expr::Reuse { var, info, upd_header, args } => Expr::Reuse {
                var: *var,
                info: info.clone(),
                upd_header: *upd_header,
                args: clone_args(args),
            },
        }
    }
}

/// A copy of a body: the same model, and well formed when the body is.
pub fn clone_body(b: &FnBody) -> (r: FnBody)
    ensures
        spec_body_wf(*b) ==> spec_body_wf(r),
        model_body(r) == model_body(*b),
    decreases b,
{
    match b {
        FnBody::VDecl { var, ty, expr, cont } => FnBody::VDecl {
            var: *var,
            ty: *ty,
            expr: expr.clone(),
            cont: Box::new(clone_body(cont)),
        },
        FnBody::JDecl { jp, params, body, cont } => FnBody::JDecl {
            jp: *jp,
            params: clone_params(params),
            body: Box::new(clone_body(body)),
            cont: Box::new(clone_body(cont)),
        },
        FnBody::SetField { var, idx, val, cont } => FnBody::SetField {
            var: *var,
            idx: *idx,
            val: *val,
            cont: Box::new(clone_body(cont)),
        },
        FnBody::USet { var, idx, val, cont } => FnBody::USet {
            var: *var,
            idx: *idx,
            val: *val,
            cont: Box::new(clone_body(cont)),
        },
        FnBody::SSet { var, n, offset, val, ty, cont } => FnBody::SSet {
            var: *var,
            n: *n,
            offset: *offset,
            val: *val,
            ty: *ty,
            cont: Box::new(clone_body(cont)),
        },
        FnBody::SetTag { var, cidx, cont } => FnBody::SetTag {
            var: *var,
            cidx: *cidx,
            cont: Box::new(clone_body(cont)),
        },
        FnBody::Case { tid, scrutinee, alts } => FnBody::Case {
            tid: tid.clone(),
            scrutinee: *scrutinee,
            alts: clone_alts(alts),
        },
        FnBody::Ret { arg } => FnBody::Ret { arg: *arg },
        FnBody::Jmp { jp, args } => FnBody::Jmp { jp: *jp, args: clone_args(args) },
        FnBody::Unreachable => FnBody::Unreachable,
    }
}

pub fn clone_alts(alts: &Vec<Alt>) -> (r: Vec<Alt>)
    ensures
        spec_alts_wf(alts@) ==> spec_alts_wf(r@),
        r@.len() == alts@.len(),
        model_alts(r@) == model_alts(alts@),
    decreases alts,
{
    let mut r: Vec<Alt> = Vec::new();
    let mut i: usize = 0;
    while i < alts.len()
        invariant
            i <= alts@.len(),
            r@.len() == i,
            spec_alts_wf(alts@) ==> forall|k: int| 0 <= k < i ==> spec_body_wf(#[trigger] r@[k].spec_body()),
            forall|k: int| 0 <= k < i ==> #[trigger] model_alt(r@[k]) == model_alt(alts@[k]),
        decreases alts@.len() - i,
    {
        proof {
            vstd::std_specs::vec::axiom_vec_index_decreases(*alts, i as int);
        }
        let a = match &alts[i] {
            Alt::Ctor { info, body } => Alt::Ctor { info: info.clone(), body: clone_body(body) },
            Alt::Default { body } => Alt::Default { body: clone_body(body) },
        };
        proof {
            if spec_alts_wf(alts@) {
                assert(spec_body_wf(alts@[i as int].spec_body()));
            }
        }
        r.push(a);
        i = i + 1;
    }
    assert forall|k: int| 0 <= k < r@.len() implies #[trigger] model_alts(r@)[k] == model_alts(alts@)[k] by {
        assert(model_alt(r@[k]) == model_alt(alts@[k]));
    }
    assert(model_alts(r@) =~= model_alts(alts@));
    r
}

impl Clone for FnBody {
    fn clone(&self) -> (r: Self)
        ensures
            spec_body_wf(*self) ==> spec_body_wf(r),
            model_body(r) == model_body(*self),
    {
        clone_body(self)
    }
}

impl Clone for Alt {
    fn clone(&self) -> (r: Self)
        ensures
            spec_body_wf(self.spec_body()) ==> spec_body_wf(r.spec_body()),
            model_alt(r) == model_alt(*self),
    {
        match self {
            Alt::Ctor { info, body } => Alt::Ctor { info: info.clone(), body: clone_body(body) },
            Alt::Default { body } => Alt::Default { body: clone_body(body) },
        }
    }
}

impl Clone for Decl {
    fn clone(&self) -> (r: Self)
        ensures
            r.spec_name() == self.spec_name(),
            r.spec_params() == self.spec_params(),
            r is FnDecl <==> self is FnDecl,
            spec_decl_wf(*self) ==> spec_decl_wf(r),
            model_decl(r) == model_decl(*self),
    {
        match self {
            Decl::FnDecl { name, params, ret_type, body } => Decl::FnDecl {
                name: name.clone(),
                params: clone_params(params),
                ret_type: *ret_type,
                body: clone_body(body),
            },
            Decl::ExternDecl { name, params, ret_type } => Decl::ExternDecl {
                name: name.clone(),
                params: clone_params(params),
                ret_type: *ret_type,
            },
        }
    }
}


/// The model of a constructor description: its name as characters.
pub struct SCtorInfo {
    pub name: Seq<char>,
    pub cidx: u16,
    pub size: u32,
    pub usize_fields: u32,
    pub scalar_size: u32,
}

pub enum SLitValue {
    Num(u64),
    Str(Seq<char>),
}

/// The model of an expression: names as characters, argument lists as sequences.
pub enum SExpr {
    Ctor { info: SCtorInfo, args: Seq<Arg> },
    Proj { idx: u32, var: VarId },
    UProj { idx: u32, var: VarId },
    SProj { n: u32, offset: u32, var: VarId },
    FAp { fun: Seq<char>, args: Seq<Arg> },
    PAp { fun: Seq<char>, args: Seq<Arg> },
    Ap { fun: VarId, args: Seq<Arg> },
    Box { ty: IRType, var: VarId },
    Unbox { var: VarId },
    Lit { val: SLitValue },
    IsShared { var: VarId },
    Reset { n: u32, var: VarId },
    Reuse { var: VarId, info: SCtorInfo, upd_header: bool, args: Seq<Arg> },
}

/// The model of a function body.
pub enum SFnBody {
    VDecl { var: VarId, ty: IRType, expr: SExpr, cont: Box<SFnBody> },
    JDecl { jp: JoinPointId, params: Seq<Param>, body: Box<SFnBody>, cont: Box<SFnBody> },
    SetField { var: VarId, idx: u32, val: Arg, cont: Box<SFnBody> },
    USet { var: VarId, idx: u32, val: VarId, cont: Box<SFnBody> },
    SSet { var: VarId, n: u32, offset: u32, val: VarId, ty: IRType, cont: Box<SFnBody> },
    SetTag { var: VarId, cidx: u16, cont: Box<SFnBody> },
    Case { tid: Seq<char>, scrutinee: VarId, alts: Seq<SAlt> },
    Ret { arg: Arg },
    Jmp { jp: JoinPointId, args: Seq<Arg> },
    Unreachable,
}

pub enum SAlt {
    Ctor { info: SCtorInfo, body: SFnBody },
    Default { body: SFnBody },
}

pub enum SDecl {
    FnDecl { name: Seq<char>, params: Seq<Param>, ret_type: IRType, body: SFnBody },
    ExternDecl { name: Seq<char>, params: Seq<Param>, ret_type: IRType },
}

impl CtorInfo {
    pub open spec fn model(&self) -> SCtorInfo {
        SCtorInfo {
            name: self.name@,
            cidx: self.cidx,
            size: self.size,
            usize_fields: self.usize_fields,
            scalar_size: self.scalar_size,
        }
    }
}

impl LitValue {
    pub open spec fn model(&self) -> SLitValue {
        match self {
            LitValue::Num(n) => SLitValue::Num(*n),
            LitValue::Str(s) => SLitValue::Str(s@),
        }
    }
}

impl Expr {
    pub open spec fn model(&self) -> SExpr {
        match self {
            Expr::Ctor { info, args } => SExpr::Ctor { info: info.model(), args: args@ },
            Expr::Proj { idx, var } => SExpr::Proj { idx: *idx, var: *var },
            Expr::UProj { idx, var } => SExpr::UProj { idx: *idx, var: *var },
            Expr::SProj { n, offset, var } => SExpr::SProj { n: *n, offset: *offset, var: *var },
            Expr::FAp { fun, args } => SExpr::FAp { fun: fun@, args: args@ },
            Expr::PAp { fun, args } => SExpr::PAp { fun: fun@, args: args@ },
            Expr::Ap { fun, args } => SExpr::Ap { fun: *fun, args: args@ },
            Expr::Box { ty, var } => SExpr::Box { ty: *ty, var: *var },
            Expr::Unbox { var } => SExpr::Unbox { var: *var },
            Expr::Lit { val } => SExpr::Lit { val: val.model() },
            Expr::IsShared { var } => SExpr::IsShared { var: *var },
            Expr::Reset { n, var } => SExpr::Reset { n: *n, var: *var },
            Expr::Reuse { var, info, upd_header, args } => SExpr::Reuse {
                var: *var,
                info: info.model(),
                upd_header: *upd_header,
                args: args@,
            },
        }
    }
}

/// The models of a sequence of alternatives.
pub open spec fn model_alts(alts: Seq<Alt>) -> Seq<SAlt>
    decreases alts,
{
    Seq::new(
        alts.len(),
        |i: int|
            if 0 <= i < alts.len() {
                model_alt(alts[i])
            } else {
                SAlt::Default { body: SFnBody::Unreachable }
            },
    )
}

pub open spec fn model_alt(a: Alt) -> SAlt
    decreases a,
{
    match a {
        Alt::Ctor { info, body } => SAlt::Ctor { info: info.model(), body: model_body(body) },
        Alt::Default { body } => SAlt::Default { body: model_body(body) },
    }
}

/// The model of a function body.
pub open spec fn model_body(b: FnBody) -> SFnBody
    decreases b,
{
    match b {
        FnBody::VDecl { var, ty, expr, cont } => SFnBody::VDecl {
            var,
            ty,
            expr: expr.model(),
            cont: Box::new(model_body(*cont)),
        },
        FnBody::JDecl { jp, params, body, cont } => SFnBody::JDecl {
            jp,
            params: params@,
            body: Box::new(model_body(*body)),
            cont: Box::new(model_body(*cont)),
        },
        FnBody::SetField { var, idx, val, cont } => SFnBody::SetField {
            var,
            idx,
            val,
            cont: Box::new(model_body(*cont)),
        },
        FnBody::USet { var, idx, val, cont } => SFnBody::USet { var, idx, val, cont: Box::new(model_body(*cont)) },
        FnBody::SSet { var, n, offset, val, ty, cont } => SFnBody::SSet {
            var,
            n,
            offset,
            val,
            ty,
            cont: Box::new(model_body(*cont)),
        },
        FnBody::SetTag { var, cidx, cont } => SFnBody::SetTag { var, cidx, cont: Box::new(model_body(*cont)) },
        FnBody::Case { tid, scrutinee, alts } => SFnBody::Case { tid: tid@, scrutinee, alts: model_alts(alts@) },
        FnBody::Ret { arg } => SFnBody::Ret { arg },
        FnBody::Jmp { jp, args } => SFnBody::Jmp { jp, args: args@ },
        FnBody::Unreachable => SFnBody::Unreachable,
    }
}

pub open spec fn model_decl(d: Decl) -> SDecl {
    match d {
        Decl::FnDecl { name, params, ret_type, body } => SDecl::FnDecl {
            name: name@,
            params: params@,
            ret_type,
            body: model_body(body),
        },
        Decl::ExternDecl { name, params, ret_type } => SDecl::ExternDecl { name: name@, params: params@, ret_type },
    }
}

} // verus!
