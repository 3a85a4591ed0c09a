//! The lang-item registry: a fixed table from a lang-item name to the shape a declaration
//! must have, the constraints it must meet, and the annotations it receives.

use vstd::prelude::*;

verus! {

/// The structural shape of a declaration.
#[derive(Debug, Clone, Copy, PartialEq, Eq, Structural, Hash)]
pub enum Target {
    Enum,
    Trait,
    Struct,
    Union,
    Fn,
    Type,
    EnumVariant,
}

impl Target {
    pub open spec fn spec_name(self) -> Seq<char> {
        match self {
            Target::Enum => "enum"@,
            Target::Trait => "trait"@,
            Target::Struct => "struct"@,
            Target::Union => "union"@,
            Target::Fn => "function"@,
            Target::Type => "type"@,
            Target::EnumVariant => "enum variant"@,
        }
    }

    /// The word diagnostics use for this shape.
    pub fn name(self) -> (r: &'static str)
        ensures
            r@ == self.spec_name(),
    {
        match self {
            Target::Enum => "enum",
            Target::Trait => "trait",
            Target::Struct => "struct",
            Target::Union => "union",
            Target::Fn => "function",
            Target::Type => "type",
            Target::EnumVariant => "enum variant",
        }
    }
}

/// One property a declaration must have to stand for a lang item.
#[derive(Debug, Clone, Copy, PartialEq, Eq, Structural, Hash)]
pub enum Constraint {
    // modifiers of a trait or a function
    Auto,
    Unsafety,
    Constness,
    // properties carried by an attribute
    Coinductive,
    Unimplementable,
    ObjectUnimplementable,
    CLayout,
    Transparent,
    Fundamental,
    // exact counts
    Generics(usize),
    Arguments(usize),
}

impl Constraint {
    pub open spec fn spec_name(self) -> Seq<char> {
        match self {
            Constraint::Auto => "auto"@,
            Constraint::Unsafety => "unsafe"@,
            Constraint::Constness => "const"@,
            Constraint::Coinductive => "coinductive"@,
            Constraint::Unimplementable => "unimplementable"@,
            Constraint::ObjectUnimplementable => "object unimplementable"@,
            Constraint::CLayout => "repr(C)"@,
            Constraint::Transparent => "repr(transparent)"@,
            Constraint::Fundamental => "fundamental"@,
            Constraint::Generics(_) => "generics"@,
            Constraint::Arguments(_) => "arguments"@,
        }
    }

    /// The word diagnostics use for this constraint.
    pub fn name(self) -> (r: &'static str)
        ensures
            r@ == self.spec_name(),
    {
        match self {
            Constraint::Auto => "auto",
            Constraint::Unsafety => "unsafe",
            Constraint::Constness => "const",
            Constraint::Coinductive => "coinductive",
            Constraint::Unimplementable => "unimplementable",
            Constraint::ObjectUnimplementable => "object unimplementable",
            Constraint::CLayout => "repr(C)",
            Constraint::Transparent => "repr(transparent)",
            Constraint::Fundamental => "fundamental",
            Constraint::Generics(_) => "generics",
            Constraint::Arguments(_) => "arguments",
        }
    }
}

/// What an attribute found on a declaration says about it.
#[derive(Debug, Clone, Copy, PartialEq, Eq, Structural, Hash)]
pub enum ItemAttribut {
    Unknown,
    ConstTrait,
    Fundamental,
    Transparent,
    CLayout,
    Coinductive,
    Unimplementable,
    ObjectUnimplementable,
}

/// Whether, and under which name, a declaration receives an annotation.
#[derive(Debug, Clone, Copy, PartialEq, Eq)]
pub enum NamePolicy {
    /// Under the given name.
    Named(&'static str),
    /// Under a name taken from the entry itself.
    Inherited,
    /// No annotation.
    Unnamed,
}

/// The two annotations a lang item may emit.
#[derive(Debug, Clone, Copy, PartialEq, Eq, Structural)]
pub enum AnnotationKind {
    /// `#[rustc_diagnostic_item = "..."]`
    DiagnosticItem,
    /// `#[lang = "..."]`
    LangItem,
}

/// One annotation put in front of an accepted declaration.
#[derive(Debug, Clone, Copy, PartialEq, Eq)]
pub struct Annotation {
    pub kind: AnnotationKind,
    pub value: &'static str,
}

/// What the registry holds for one lang item.
pub struct LangItemEntry {
    pub name: &'static str,
    /// The identifier of the entry, used where the diagnostic name is inherited.
    pub variant: &'static str,
    pub target: Target,
    pub constraints: Vec<Constraint>,
    pub diagnostic: NamePolicy,
    pub compiler: NamePolicy,
}

/// The mathematical content of a registry entry.
pub struct EntryView {
    pub name: &'static str,
    pub variant: &'static str,
    pub target: Target,
    pub constraints: Seq<Constraint>,
    pub diagnostic: NamePolicy,
    pub compiler: NamePolicy,
}

impl View for LangItemEntry {
    type V = EntryView;

    open spec fn view(&self) -> EntryView {
        EntryView {
            name: self.name,
            variant: self.variant,
            target: self.target,
            constraints: self.constraints@,
            diagnostic: self.diagnostic,
            compiler: self.compiler,
        }
    }
}

/// The diagnostic-name annotation an entry asks for, if any.
pub open spec fn diagnostic_annotation(e: EntryView) -> Seq<Annotation> {
    match e.diagnostic {
        NamePolicy::Named(n) => seq![Annotation { kind: AnnotationKind::DiagnosticItem, value: n }],
        NamePolicy::Inherited => seq![
            Annotation { kind: AnnotationKind::DiagnosticItem, value: e.variant },
        ],
        NamePolicy::Unnamed => Seq::empty(),
    }
}

/// The compiler-name annotation an entry asks for, if any.
pub open spec fn compiler_annotation(e: EntryView) -> Seq<Annotation> {
    match e.compiler {
        NamePolicy::Named(n) => seq![Annotation { kind: AnnotationKind::LangItem, value: n }],
        NamePolicy::Inherited => seq![Annotation { kind: AnnotationKind::LangItem, value: e.name }],
        NamePolicy::Unnamed => Seq::empty(),
    }
}

/// The annotations an accepted declaration receives, diagnostic name first.
pub open spec fn annotations_of(e: EntryView) -> Seq<Annotation> {
    diagnostic_annotation(e) + compiler_annotation(e)
}

impl LangItemEntry {
    /// The annotations an accepted declaration receives under this entry's naming policies.
    pub fn annotations(&self) -> (r: Vec<Annotation>)
        ensures
            r@ == annotations_of(self@),
    {
        let mut r: Vec<Annotation> = Vec::new();
        match self.diagnostic {
            NamePolicy::Named(n) => r.push(Annotation { kind: AnnotationKind::DiagnosticItem, value: n }),
            NamePolicy::Inherited => r.push(
                Annotation { kind: AnnotationKind::DiagnosticItem, value: self.variant },
            ),
            NamePolicy::Unnamed => {},
        }
        assert(r@ =~= diagnostic_annotation(self@));
        match self.compiler {
            NamePolicy::Named(n) => r.push(Annotation { kind: AnnotationKind::LangItem, value: n }),
            NamePolicy::Inherited => r.push(
                Annotation { kind: AnnotationKind::LangItem, value: self.name },
            ),
            NamePolicy::Unnamed => {},
        }
        assert(r@ =~= annotations_of(self@));
        r
    }
}

fn constraints0() -> (r: Vec<Constraint>)
    ensures
        r@ == Seq::<Constraint>::empty(),
{
    Vec::new()
}

fn constraints1(a: Constraint) -> (r: Vec<Constraint>)
    ensures
        r@ == seq![a],
{
    let mut r = Vec::new();
    r.push(a);
    assert(r@ =~= seq![a]);
    r
}

fn constraints2(a: Constraint, b: Constraint) -> (r: Vec<Constraint>)
    ensures
        r@ == seq![a, b],
{
    let mut r = constraints1(a);
    r.push(b);
    assert(r@ =~= seq![a, b]);
    r
}

fn constraints3(a: Constraint, b: Constraint, c: Constraint) -> (r: Vec<Constraint>)
    ensures
        r@ == seq![a, b, c],
{
    let mut r = constraints2(a, b);
    r.push(c);
    assert(r@ =~= seq![a, b, c]);
    r
}

fn constraints4(a: Constraint, b: Constraint, c: Constraint, d: Constraint) -> (r: Vec<Constraint>)
    ensures
        r@ == seq![a, b, c, d],
{
    let mut r = constraints3(a, b, c);
    r.push(d);
    assert(r@ =~= seq![a, b, c, d]);
    r
}

/// Every lang item the registry knows.
#[derive(Debug, Clone, Copy, PartialEq, Eq, Structural, Hash)]
pub enum LangItem {
    Sized,
    Unsize,
    CoerceUnsized,
    ConstParamTy,
    UnsizedConstParamTy,
    TupleTrait,
    StructuralPartialEq,
    DiscriminantKind,
    DiscriminantType,
    Send,
    Sync,
    Freeze,
    Unpin,
    Copy,
    Clone,
    CloneFn,
    Drop,
    Destruct,
    BikeshedGuaranteedNoDrop,
    AsyncDrop,
    FutureTrait,
    FutureOutput,
    FuturePoll,
    IntoFutureTrait,
    IntoFutureFn,
    IntoIterTrait,
    IntoIterFn,
    FusedIterator,
    Iterator,
    IteratorItem,
    IteratorNext,
    TransmuteTrait,
    TransmuteAssumption,
    Deref,
    DerefMut,
    DerefPure,
    DerefTarget,
    LegacyReceiver,
    Receiver,
    ReceiverTarget,
    DispatchFromDyn,
    DynMetadata,
    PointeeTrait,
    PointeeMetadata,
    PointerLike,
    CoercePointeeValidated,
    FnPtrTrait,
    FnPtrAddr,
    AsyncFn,
    AsyncFnMut,
    AsyncFnCallRefFuture,
    AsyncFnOnce,
    AsyncFnCallOnceFuture,
    AsyncFnOnceOutput,
    AsyncFnKindHelper,
    AsyncFnKindUpvars,
    Fn,
    FnMut,
    FnOnce,
    FnOnceOutput,
    Try,
    TryBranchFn,
    TryFromOutputFn,
    FromResidual,
    FromResidualFn,
    FromYeet,
    Add,
    Sub,
    Mul,
    Div,
    Rem,
    BitXor,
    BitAnd,
    BitOr,
    Shl,
    Shr,
    AddAssign,
    SubAssign,
    MulAssign,
    DivAssign,
    RemAssign,
    BitXorAssign,
    BitAndAssign,
    BitOrAssign,
    ShlAssign,
    ShrAssign,
    Index,
    IndexMut,
    PartialEq,
    PartialOrd,
    Neg,
    Not,
    ManuallyDrop,
    MaybeUninit,
    UnsafeCell,
    PhantomData,
    Ordering,
    ResumeTy,
    Context,
    GetContext,
    AsyncDropInPlace,
    DropInPlace,
    AllocLayout,
    Unique,
    Pin,
    PinNewUnchecked,
    Option,
    OptionNone,
    OptionSome,
    Result,
    ResultOk,
    ResultErr,
    ControlFlow,
    ControlFlowBreak,
    ControlFlowContinue,
    Poll,
    PollReady,
    PollPending,
    CoroutineState,
    CoroutineTrait,
    CoroutineYield,
    CoroutineReturn,
    CoroutineResume,
    SliceLen,
    ContractBuildCheckEnsures,
    ContractCheckRequires,
    ContractCheckEnsures,
    FormatArguments,
    FormatArgument,
    FormatUnsafeArgument,
    FormatPlaceholder,
    FormatCount,
    PanicLocation,
    PanicInfo,
    Panic,
    PanicImpl,
    PanicFmt,
    PanicNounwind,
    PanicBoundsCheck,
    PanicMisalignedPointerDereference,
    PanicNullPointerDereference,
    PanicCannotUnwind,
    PanicInCleanup,
    ConstPanicFmt,
    CStr,
    CVoid,
}

/// Builds the view of one registry entry.
pub open spec fn entry_view(
    name: &'static str,
    variant: &'static str,
    target: Target,
    constraints: Seq<Constraint>,
    diagnostic: NamePolicy,
    compiler: NamePolicy,
) -> EntryView {
    EntryView { name, variant, target, constraints, diagnostic, compiler }
}

fn entry(
    name: &'static str,
    variant: &'static str,
    target: Target,
    constraints: Vec<Constraint>,
    diagnostic: NamePolicy,
    compiler: NamePolicy,
) -> (r: LangItemEntry)
    ensures
        r@ == entry_view(name, variant, target, constraints@, diagnostic, compiler),
{
    LangItemEntry { name, variant, target, constraints, diagnostic, compiler }
}

impl LangItem {
    /// The name the lang item is registered under.
    pub open spec fn spec_name(self) -> &'static str {
        match self {
            LangItem::Sized => "sized",
            LangItem::Unsize => "unsize",
            LangItem::CoerceUnsized => "coerce_unsized",
            LangItem::ConstParamTy => "const_param_ty",
            LangItem::UnsizedConstParamTy => "unsized_const_param_ty",
            LangItem::TupleTrait => "tuple_trait",
            LangItem::StructuralPartialEq => "structural_peq",
            LangItem::DiscriminantKind => "discriminant_kind",
            LangItem::DiscriminantType => "discriminant_type",
            LangItem::Send => "send",
            LangItem::Sync => "sync",
            LangItem::Freeze => "freeze",
            LangItem::Unpin => "unpin",
            LangItem::Copy => "copy",
            LangItem::Clone => "clone",
            LangItem::CloneFn => "clone_fn",
            LangItem::Drop => "drop",
            LangItem::Destruct => "destruct",
            LangItem::BikeshedGuaranteedNoDrop => "bikeshed_guaranteed_no_drop",
            LangItem::AsyncDrop => "async_drop",
            LangItem::FutureTrait => "future_trait",
            LangItem::FutureOutput => "future_output",
            LangItem::FuturePoll => "future_poll",
            LangItem::IntoFutureTrait => "into_future_trait",
            LangItem::IntoFutureFn => "into_future_fn",
            LangItem::IntoIterTrait => "into_iterator_trait",
            LangItem::IntoIterFn => "into_iterator_fn",
            LangItem::FusedIterator => "fused_iterator",
            LangItem::Iterator => "iterator",
            LangItem::IteratorItem => "iterator_item",
            LangItem::IteratorNext => "iterator_next",
            LangItem::TransmuteTrait => "transmute_trait",
            LangItem::TransmuteAssumption => "transmute_assumption",
            LangItem::Deref => "deref",
            LangItem::DerefMut => "deref_mut",
            LangItem::DerefPure => "deref_pure",
            LangItem::DerefTarget => "deref_target",
            LangItem::LegacyReceiver => "legacy_receiver",
            LangItem::Receiver => "receiver",
            LangItem::ReceiverTarget => "receiver_target",
            LangItem::DispatchFromDyn => "dispatch_from_dyn",
            LangItem::DynMetadata => "dyn_metadata",
            LangItem::PointeeTrait => "pointee",
            LangItem::PointeeMetadata => "pointee_metadata",
            LangItem::PointerLike => "pointer_like",
            LangItem::CoercePointeeValidated => "coerce_pointee_validated",
            LangItem::FnPtrTrait => "fn_ptr_trait",
            LangItem::FnPtrAddr => "fn_ptr_addr",
            LangItem::AsyncFn => "async_fn",
            LangItem::AsyncFnMut => "async_fn_mut",
            LangItem::AsyncFnCallRefFuture => "async_fn_call_ref_future",
            LangItem::AsyncFnOnce => "async_fn_once",
            LangItem::AsyncFnCallOnceFuture => "async_fn_call_once_future",
            LangItem::AsyncFnOnceOutput => "async_fn_once_output",
            LangItem::AsyncFnKindHelper => "async_fn_kind_helper",
            LangItem::AsyncFnKindUpvars => "async_fn_kind_upvars",
            LangItem::Fn => "fn",
            LangItem::FnMut => "fn_mut",
            LangItem::FnOnce => "fn_once",
            LangItem::FnOnceOutput => "fn_once_output",
            LangItem::Try => "try",
            LangItem::TryBranchFn => "try_branch_fn",
            LangItem::TryFromOutputFn => "try_from_output_fn",
            LangItem::FromResidual => "from_residual",
            LangItem::FromResidualFn => "from_residual_fn",
            LangItem::FromYeet => "from_yeet",
            LangItem::Add => "add",
            LangItem::Sub => "sub",
            LangItem::Mul => "mul",
            LangItem::Div => "div",
            LangItem::Rem => "rem",
            LangItem::BitXor => "bit_xor",
            LangItem::BitAnd => "bit_and",
            LangItem::BitOr => "bit_or",
            LangItem::Shl => "shl",
            LangItem::Shr => "shr",
            LangItem::AddAssign => "add_assign",
            LangItem::SubAssign => "sub_assign",
            LangItem::MulAssign => "mul_assign",
            LangItem::DivAssign => "div_assign",
            LangItem::RemAssign => "rem_assign",
            LangItem::BitXorAssign => "bit_xor_assign",
            LangItem::BitAndAssign => "bit_and_assign",
            LangItem::BitOrAssign => "bit_or_assign",
            LangItem::ShlAssign => "shl_assign",
            LangItem::ShrAssign => "shr_assign",
            LangItem::Index => "index",
            LangItem::IndexMut => "index_mut",
            LangItem::PartialEq => "partial_eq",
            LangItem::PartialOrd => "partial_ord",
            LangItem::Neg => "neg",
            LangItem::Not => "not",
            LangItem::ManuallyDrop => "manually_drop",
            LangItem::MaybeUninit => "maybe_uninit",
            LangItem::UnsafeCell => "unsafe_cell",
            LangItem::PhantomData => "phantom_data",
            LangItem::Ordering => "ordering",
            LangItem::ResumeTy => "resume",
            LangItem::Context => "context",
            LangItem::GetContext => "get_context",
            LangItem::AsyncDropInPlace => "async_drop_in_place",
            LangItem::DropInPlace => "drop_in_place",
            LangItem::AllocLayout => "layout",
            LangItem::Unique => "unique",
            LangItem::Pin => "pin",
            LangItem::PinNewUnchecked => "pin_new_unchecked",
            LangItem::Option => "option",
            LangItem::OptionNone => "option_none",
            LangItem::OptionSome => "option_some",
            LangItem::Result => "result",
            LangItem::ResultOk => "result_ok",
            LangItem::ResultErr => "result_err",
            LangItem::ControlFlow => "control_flow",
            LangItem::ControlFlowBreak => "control_flow_break",
            LangItem::ControlFlowContinue => "control_flow_continue",
            LangItem::Poll => "poll",
            LangItem::PollReady => "poll_ready",
            LangItem::PollPending => "poll_pending",
            LangItem::CoroutineState => "coroutine_state",
            LangItem::CoroutineTrait => "coroutine_trait",
            LangItem::CoroutineYield => "coroutine_yield",
            LangItem::CoroutineReturn => "coroutine_return",
            LangItem::CoroutineResume => "coroutine_resume",
            LangItem::SliceLen => "slice_len_fn",
            LangItem::ContractBuildCheckEnsures => "contract_build_check_ensures",
            LangItem::ContractCheckRequires => "contract_check_requires",
            LangItem::ContractCheckEnsures => "contract_check_ensures",
            LangItem::FormatArguments => "format_arguments",
            LangItem::FormatArgument => "format_argument",
            LangItem::FormatUnsafeArgument => "format_unsafe_arg",
            LangItem::FormatPlaceholder => "format_placeholder",
            LangItem::FormatCount => "format_count",
            LangItem::PanicLocation => "panic_location",
            LangItem::PanicInfo => "panic_info",
            LangItem::Panic => "panic",
            LangItem::PanicImpl => "panic_impl",
            LangItem::PanicFmt => "panic_fmt",
            LangItem::PanicNounwind => "panic_nounwind",
            LangItem::PanicBoundsCheck => "panic_bounds_check",
            LangItem::PanicMisalignedPointerDereference => "panic_misaligned_pointer_dereference",
            LangItem::PanicNullPointerDereference => "panic_null_pointer_dereference",
            LangItem::PanicCannotUnwind => "panic_cannot_unwind",
            LangItem::PanicInCleanup => "panic_in_cleanup",
            LangItem::ConstPanicFmt => "const_panic_fmt",
            LangItem::CStr => "cstr",
            LangItem::CVoid => "cvoid",
        }
    }

    /// The registry's entry for this lang item.
    pub open spec fn spec_entry(self) -> EntryView {
        match self {
            LangItem::Sized => entry_view("sized", "Sized", Target::Trait, seq![Constraint::Coinductive, Constraint::Fundamental, Constraint::Unimplementable], NamePolicy::Unnamed, NamePolicy::Inherited),
            LangItem::Unsize => entry_view("unsize", "Unsize", Target::Trait, seq![Constraint::Generics(1), Constraint::Unimplementable], NamePolicy::Unnamed, NamePolicy::Inherited),
            LangItem::CoerceUnsized => entry_view("coerce_unsized", "CoerceUnsized", Target::Trait, Seq::empty(), NamePolicy::Unnamed, NamePolicy::Inherited),
            LangItem::ConstParamTy => entry_view("const_param_ty", "ConstParamTy", Target::Trait, Seq::empty(), NamePolicy::Unnamed, NamePolicy::Inherited),
            LangItem::UnsizedConstParamTy => entry_view("unsized_const_param_ty", "UnsizedConstParamTy", Target::Trait, Seq::empty(), NamePolicy::Unnamed, NamePolicy::Inherited),
            LangItem::TupleTrait => entry_view("tuple_trait", "TupleTrait", Target::Trait, seq![Constraint::Unimplementable], NamePolicy::Unnamed, NamePolicy::Inherited),
            LangItem::StructuralPartialEq => entry_view("structural_peq", "StructuralPartialEq", Target::Trait, Seq::empty(), NamePolicy::Unnamed, NamePolicy::Inherited),
            LangItem::DiscriminantKind => entry_view("discriminant_kind", "DiscriminantKind", Target::Trait, seq![Constraint::Unimplementable], NamePolicy::Unnamed, NamePolicy::Inherited),
            LangItem::DiscriminantType => entry_view("discriminant_type", "DiscriminantType", Target::Type, Seq::empty(), NamePolicy::Unnamed, NamePolicy::Inherited),
            LangItem::Send => entry_view("send", "Send", Target::Trait, seq![Constraint::Unsafety, Constraint::Auto], NamePolicy::Unnamed, NamePolicy::Unnamed),
            LangItem::Sync => entry_view("sync", "Sync", Target::Trait, seq![Constraint::Unsafety, Constraint::Auto], NamePolicy::Unnamed, NamePolicy::Inherited),
            LangItem::Freeze => entry_view("freeze", "Freeze", Target::Trait, seq![Constraint::Unsafety, Constraint::Auto], NamePolicy::Unnamed, NamePolicy::Inherited),
            LangItem::Unpin => entry_view("unpin", "Unpin", Target::Trait, seq![Constraint::Auto], NamePolicy::Unnamed, NamePolicy::Inherited),
            LangItem::Copy => entry_view("copy", "Copy", Target::Trait, Seq::empty(), NamePolicy::Inherited, NamePolicy::Inherited),
            LangItem::Clone => entry_view("clone", "Clone", Target::Trait, Seq::empty(), NamePolicy::Inherited, NamePolicy::Inherited),
            LangItem::CloneFn => entry_view("clone_fn", "CloneFn", Target::Fn, seq![Constraint::Arguments(1)], NamePolicy::Unnamed, NamePolicy::Inherited),
            LangItem::Drop => entry_view("drop", "Drop", Target::Trait, seq![Constraint::Constness], NamePolicy::Unnamed, NamePolicy::Inherited),
            LangItem::Destruct => entry_view("destruct", "Destruct", Target::Trait, seq![Constraint::Constness, Constraint::Unimplementable], NamePolicy::Unnamed, NamePolicy::Inherited),
            LangItem::BikeshedGuaranteedNoDrop => entry_view("bikeshed_guaranteed_no_drop", "BikeshedGuaranteedNoDrop", Target::Trait, seq![Constraint::Unimplementable], NamePolicy::Unnamed, NamePolicy::Inherited),
            LangItem::AsyncDrop => entry_view("async_drop", "AsyncDrop", Target::Trait, Seq::empty(), NamePolicy::Unnamed, NamePolicy::Inherited),
            LangItem::FutureTrait => entry_view("future_trait", "FutureTrait", Target::Trait, Seq::empty(), NamePolicy::Unnamed, NamePolicy::Inherited),
            LangItem::FutureOutput => entry_view("future_output", "FutureOutput", Target::Type, Seq::empty(), NamePolicy::Unnamed, NamePolicy::Inherited),
            LangItem::FuturePoll => entry_view("future_poll", "FuturePoll", Target::Fn, seq![Constraint::Arguments(2)], NamePolicy::Unnamed, NamePolicy::Named("poll")),
            LangItem::IntoFutureTrait => entry_view("into_future_trait", "IntoFutureTrait", Target::Trait, Seq::empty(), NamePolicy::Named("IntoFuture"), NamePolicy::Unnamed),
            LangItem::IntoFutureFn => entry_view("into_future_fn", "IntoFutureFn", Target::Fn, seq![Constraint::Arguments(1)], NamePolicy::Unnamed, NamePolicy::Named("into_future")),
            LangItem::IntoIterTrait => entry_view("into_iterator_trait", "IntoIterTrait", Target::Trait, Seq::empty(), NamePolicy::Named("IntoIterator"), NamePolicy::Unnamed),
            LangItem::IntoIterFn => entry_view("into_iterator_fn", "IntoIterFn", Target::Fn, seq![Constraint::Arguments(1)], NamePolicy::Unnamed, NamePolicy::Named("into_iter")),
            LangItem::FusedIterator => entry_view("fused_iterator", "FusedIterator", Target::Trait, Seq::empty(), NamePolicy::Unnamed, NamePolicy::Inherited),
            LangItem::Iterator => entry_view("iterator", "Iterator", Target::Trait, Seq::empty(), NamePolicy::Inherited, NamePolicy::Inherited),
            LangItem::IteratorItem => entry_view("iterator_item", "IteratorItem", Target::Type, Seq::empty(), NamePolicy::Inherited, NamePolicy::Unnamed),
            LangItem::IteratorNext => entry_view("iterator_next", "IteratorNext", Target::Fn, seq![Constraint::Arguments(1)], NamePolicy::Unnamed, NamePolicy::Inherited),
            LangItem::TransmuteTrait => entry_view("transmute_trait", "TransmuteTrait", Target::Trait, seq![Constraint::Generics(2), Constraint::Unsafety, Constraint::Coinductive, Constraint::Unimplementable], NamePolicy::Unnamed, NamePolicy::Inherited),
            LangItem::TransmuteAssumption => entry_view("transmute_assumption", "TransmuteAssumption", Target::Struct, Seq::empty(), NamePolicy::Unnamed, NamePolicy::Named("transmute_opts")),
            LangItem::Deref => entry_view("deref", "Deref", Target::Trait, seq![Constraint::Constness], NamePolicy::Inherited, NamePolicy::Inherited),
            LangItem::DerefMut => entry_view("deref_mut", "DerefMut", Target::Trait, seq![Constraint::Constness], NamePolicy::Inherited, NamePolicy::Inherited),
            LangItem::DerefPure => entry_view("deref_pure", "DerefPure", Target::Trait, seq![Constraint::Unsafety], NamePolicy::Unnamed, NamePolicy::Inherited),
            LangItem::DerefTarget => entry_view("deref_target", "DerefTarget", Target::Type, Seq::empty(), NamePolicy::Unnamed, NamePolicy::Inherited),
            LangItem::LegacyReceiver => entry_view("legacy_receiver", "LegacyReceiver", Target::Trait, Seq::empty(), NamePolicy::Unnamed, NamePolicy::Inherited),
            LangItem::Receiver => entry_view("receiver", "Receiver", Target::Trait, Seq::empty(), NamePolicy::Unnamed, NamePolicy::Inherited),
            LangItem::ReceiverTarget => entry_view("receiver_target", "ReceiverTarget", Target::Type, Seq::empty(), NamePolicy::Named("receiver_target"), NamePolicy::Inherited),
            LangItem::DispatchFromDyn => entry_view("dispatch_from_dyn", "DispatchFromDyn", Target::Trait, seq![Constraint::Generics(1)], NamePolicy::Unnamed, NamePolicy::Inherited),
            LangItem::DynMetadata => entry_view("dyn_metadata", "DynMetadata", Target::Struct, seq![Constraint::Generics(1)], NamePolicy::Unnamed, NamePolicy::Inherited),
            LangItem::PointeeTrait => entry_view("pointee", "PointeeTrait", Target::Trait, seq![Constraint::Unimplementable], NamePolicy::Unnamed, NamePolicy::Named("pointee_trait")),
            LangItem::PointeeMetadata => entry_view("pointee_metadata", "PointeeMetadata", Target::Type, Seq::empty(), NamePolicy::Unnamed, NamePolicy::Named("metadata_type")),
            LangItem::PointerLike => entry_view("pointer_like", "PointerLike", Target::Trait, seq![Constraint::ObjectUnimplementable], NamePolicy::Unnamed, NamePolicy::Inherited),
            LangItem::CoercePointeeValidated => entry_view("coerce_pointee_validated", "CoercePointeeValidated", Target::Trait, Seq::empty(), NamePolicy::Unnamed, NamePolicy::Inherited),
            LangItem::FnPtrTrait => entry_view("fn_ptr_trait", "FnPtrTrait", Target::Trait, seq![Constraint::Unimplementable], NamePolicy::Unnamed, NamePolicy::Inherited),
            LangItem::FnPtrAddr => entry_view("fn_ptr_addr", "FnPtrAddr", Target::Fn, seq![Constraint::Arguments(1)], NamePolicy::Unnamed, NamePolicy::Inherited),
            LangItem::AsyncFn => entry_view("async_fn", "AsyncFn", Target::Trait, seq![Constraint::Generics(1)], NamePolicy::Unnamed, NamePolicy::Inherited),
            LangItem::AsyncFnMut => entry_view("async_fn_mut", "AsyncFnMut", Target::Trait, seq![Constraint::Generics(1)], NamePolicy::Unnamed, NamePolicy::Inherited),
            LangItem::AsyncFnCallRefFuture => entry_view("async_fn_call_ref_future", "AsyncFnCallRefFuture", Target::Type, seq![Constraint::Generics(1)], NamePolicy::Unnamed, NamePolicy::Named("call_ref_future")),
            LangItem::AsyncFnOnce => entry_view("async_fn_once", "AsyncFnOnce", Target::Trait, seq![Constraint::Generics(1)], NamePolicy::Unnamed, NamePolicy::Inherited),
            LangItem::AsyncFnCallOnceFuture => entry_view("async_fn_call_once_future", "AsyncFnCallOnceFuture", Target::Type, seq![Constraint::Generics(1)], NamePolicy::Unnamed, NamePolicy::Named("call_once_future")),
            LangItem::AsyncFnOnceOutput => entry_view("async_fn_once_output", "AsyncFnOnceOutput", Target::Type, Seq::empty(), NamePolicy::Unnamed, NamePolicy::Inherited),
            LangItem::AsyncFnKindHelper => entry_view("async_fn_kind_helper", "AsyncFnKindHelper", Target::Trait, seq![Constraint::Generics(1)], NamePolicy::Unnamed, NamePolicy::Inherited),
            LangItem::AsyncFnKindUpvars => entry_view("async_fn_kind_upvars", "AsyncFnKindUpvars", Target::Type, seq![Constraint::Generics(4)], NamePolicy::Unnamed, NamePolicy::Inherited),
            LangItem::Fn => entry_view("fn", "Fn", Target::Trait, seq![Constraint::Generics(1), Constraint::Fundamental], NamePolicy::Unnamed, NamePolicy::Inherited),
            LangItem::FnMut => entry_view("fn_mut", "FnMut", Target::Trait, seq![Constraint::Generics(1), Constraint::Fundamental], NamePolicy::Unnamed, NamePolicy::Inherited),
            LangItem::FnOnce => entry_view("fn_once", "FnOnce", Target::Trait, seq![Constraint::Generics(1), Constraint::Fundamental], NamePolicy::Unnamed, NamePolicy::Inherited),
            LangItem::FnOnceOutput => entry_view("fn_once_output", "FnOnceOutput", Target::Type, Seq::empty(), NamePolicy::Unnamed, NamePolicy::Inherited),
            LangItem::Try => entry_view("try", "Try", Target::Trait, Seq::empty(), NamePolicy::Unnamed, NamePolicy::Named("Try")),
            LangItem::TryBranchFn => entry_view("try_branch_fn", "TryBranchFn", Target::Fn, seq![Constraint::Arguments(1)], NamePolicy::Unnamed, NamePolicy::Named("branch")),
            LangItem::TryFromOutputFn => entry_view("try_from_output_fn", "TryFromOutputFn", Target::Fn, seq![Constraint::Arguments(1)], NamePolicy::Unnamed, NamePolicy::Named("from_output")),
            LangItem::FromResidual => entry_view("from_residual", "FromResidual", Target::Trait, seq![Constraint::Generics(1)], NamePolicy::Inherited, NamePolicy::Unnamed),
            LangItem::FromResidualFn => entry_view("from_residual_fn", "FromResidualFn", Target::Trait, Seq::empty(), NamePolicy::Unnamed, NamePolicy::Named("from_residual")),
            LangItem::FromYeet => entry_view("from_yeet", "FromYeet", Target::Fn, seq![Constraint::Arguments(1)], NamePolicy::Unnamed, NamePolicy::Inherited),
            LangItem::Add => entry_view("add", "Add", Target::Trait, seq![Constraint::Generics(1)], NamePolicy::Unnamed, NamePolicy::Inherited),
            LangItem::Sub => entry_view("sub", "Sub", Target::Trait, seq![Constraint::Generics(1)], NamePolicy::Unnamed, NamePolicy::Inherited),
            LangItem::Mul => entry_view("mul", "Mul", Target::Trait, seq![Constraint::Generics(1)], NamePolicy::Unnamed, NamePolicy::Inherited),
            LangItem::Div => entry_view("div", "Div", Target::Trait, seq![Constraint::Generics(1)], NamePolicy::Unnamed, NamePolicy::Inherited),
            LangItem::Rem => entry_view("rem", "Rem", Target::Trait, seq![Constraint::Generics(1)], NamePolicy::Unnamed, NamePolicy::Inherited),
            LangItem::BitXor => entry_view("bit_xor", "BitXor", Target::Trait, seq![Constraint::Generics(1)], NamePolicy::Unnamed, NamePolicy::Inherited),
            LangItem::BitAnd => entry_view("bit_and", "BitAnd", Target::Trait, seq![Constraint::Generics(1)], NamePolicy::Unnamed, NamePolicy::Inherited),
            LangItem::BitOr => entry_view("bit_or", "BitOr", Target::Trait, seq![Constraint::Generics(1)], NamePolicy::Unnamed, NamePolicy::Inherited),
            LangItem::Shl => entry_view("shl", "Shl", Target::Trait, seq![Constraint::Generics(1)], NamePolicy::Unnamed, NamePolicy::Inherited),
            LangItem::Shr => entry_view("shr", "Shr", Target::Trait, seq![Constraint::Generics(1)], NamePolicy::Unnamed, NamePolicy::Inherited),
            LangItem::AddAssign => entry_view("add_assign", "AddAssign", Target::Trait, seq![Constraint::Generics(1)], NamePolicy::Unnamed, NamePolicy::Inherited),
            LangItem::SubAssign => entry_view("sub_assign", "SubAssign", Target::Trait, seq![Constraint::Generics(1)], NamePolicy::Unnamed, NamePolicy::Inherited),
            LangItem::MulAssign => entry_view("mul_assign", "MulAssign", Target::Trait, seq![Constraint::Generics(1)], NamePolicy::Unnamed, NamePolicy::Inherited),
            LangItem::DivAssign => entry_view("div_assign", "DivAssign", Target::Trait, seq![Constraint::Generics(1)], NamePolicy::Unnamed, NamePolicy::Inherited),
            LangItem::RemAssign => entry_view("rem_assign", "RemAssign", Target::Trait, seq![Constraint::Generics(1)], NamePolicy::Unnamed, NamePolicy::Inherited),
            LangItem::BitXorAssign => entry_view("bit_xor_assign", "BitXorAssign", Target::Trait, seq![Constraint::Generics(1)], NamePolicy::Unnamed, NamePolicy::Inherited),
            LangItem::BitAndAssign => entry_view("bit_and_assign", "BitAndAssign", Target::Trait, seq![Constraint::Generics(1)], NamePolicy::Unnamed, NamePolicy::Inherited),
            LangItem::BitOrAssign => entry_view("bit_or_assign", "BitOrAssign", Target::Trait, seq![Constraint::Generics(1)], NamePolicy::Unnamed, NamePolicy::Inherited),
            LangItem::ShlAssign => entry_view("shl_assign", "ShlAssign", Target::Trait, seq![Constraint::Generics(1)], NamePolicy::Unnamed, NamePolicy::Inherited),
            LangItem::ShrAssign => entry_view("shr_assign", "ShrAssign", Target::Trait, seq![Constraint::Generics(1)], NamePolicy::Unnamed, NamePolicy::Inherited),
            LangItem::Index => entry_view("index", "Index", Target::Trait, seq![Constraint::Generics(1)], NamePolicy::Unnamed, NamePolicy::Inherited),
            LangItem::IndexMut => entry_view("index_mut", "IndexMut", Target::Trait, seq![Constraint::Generics(1)], NamePolicy::Unnamed, NamePolicy::Inherited),
            LangItem::PartialEq => entry_view("partial_eq", "PartialEq", Target::Trait, seq![Constraint::Generics(1)], NamePolicy::Inherited, NamePolicy::Named("eq")),
            LangItem::PartialOrd => entry_view("partial_ord", "PartialOrd", Target::Trait, seq![Constraint::Generics(1)], NamePolicy::Inherited, NamePolicy::Inherited),
            LangItem::Neg => entry_view("neg", "Neg", Target::Trait, Seq::empty(), NamePolicy::Unnamed, NamePolicy::Inherited),
            LangItem::Not => entry_view("not", "Not", Target::Trait, Seq::empty(), NamePolicy::Unnamed, NamePolicy::Inherited),
            LangItem::ManuallyDrop => entry_view("manually_drop", "ManuallyDrop", Target::Struct, seq![Constraint::Generics(1), Constraint::Transparent], NamePolicy::Unnamed, NamePolicy::Inherited),
            LangItem::MaybeUninit => entry_view("maybe_uninit", "MaybeUninit", Target::Union, seq![Constraint::Generics(1), Constraint::Transparent], NamePolicy::Unnamed, NamePolicy::Inherited),
            LangItem::UnsafeCell => entry_view("unsafe_cell", "UnsafeCell", Target::Struct, seq![Constraint::Generics(1), Constraint::Transparent], NamePolicy::Unnamed, NamePolicy::Inherited),
            LangItem::PhantomData => entry_view("phantom_data", "PhantomData", Target::Struct, seq![Constraint::Generics(1)], NamePolicy::Unnamed, NamePolicy::Inherited),
            LangItem::Ordering => entry_view("ordering", "Ordering", Target::Enum, Seq::empty(), NamePolicy::Unnamed, NamePolicy::Named("Ordering")),
            LangItem::ResumeTy => entry_view("resume", "ResumeTy", Target::Struct, Seq::empty(), NamePolicy::Unnamed, NamePolicy::Named("ResumeTy")),
            LangItem::Context => entry_view("context", "Context", Target::Struct, seq![Constraint::Generics(1)], NamePolicy::Unnamed, NamePolicy::Named("Context")),
            LangItem::GetContext => entry_view("get_context", "GetContext", Target::Fn, seq![Constraint::Generics(2), Constraint::Arguments(1), Constraint::Unsafety], NamePolicy::Unnamed, NamePolicy::Named("get_context")),
            LangItem::AsyncDropInPlace => entry_view("async_drop_in_place", "AsyncDropInPlace", Target::Fn, seq![Constraint::Generics(1), Constraint::Arguments(1), Constraint::Unsafety], NamePolicy::Named("ptr_drop_in_place"), NamePolicy::Inherited),
            LangItem::DropInPlace => entry_view("drop_in_place", "DropInPlace", Target::Fn, seq![Constraint::Generics(1), Constraint::Arguments(1), Constraint::Unsafety], NamePolicy::Named("ptr_drop_in_place"), NamePolicy::Inherited),
            LangItem::AllocLayout => entry_view("layout", "AllocLayout", Target::Struct, Seq::empty(), NamePolicy::Unnamed, NamePolicy::Named("alloc_layout")),
            LangItem::Unique => entry_view("unique", "Unique", Target::Struct, seq![Constraint::Generics(1), Constraint::Transparent], NamePolicy::Unnamed, NamePolicy::Named("ptr_unique")),
            LangItem::Pin => entry_view("pin", "Pin", Target::Struct, seq![Constraint::Generics(1), Constraint::Fundamental, Constraint::Transparent], NamePolicy::Unnamed, NamePolicy::Inherited),
            LangItem::PinNewUnchecked => entry_view("pin_new_unchecked", "PinNewUnchecked", Target::Struct, seq![Constraint::Constness, Constraint::Unsafety], NamePolicy::Unnamed, NamePolicy::Named("new_unchecked")),
            LangItem::Option => entry_view("option", "Option", Target::Enum, seq![Constraint::Generics(1)], NamePolicy::Inherited, NamePolicy::Named("Option")),
            LangItem::OptionNone => entry_view("option_none", "OptionNone", Target::EnumVariant, Seq::empty(), NamePolicy::Unnamed, NamePolicy::Named("None")),
            LangItem::OptionSome => entry_view("option_some", "OptionSome", Target::EnumVariant, Seq::empty(), NamePolicy::Unnamed, NamePolicy::Named("Some")),
            LangItem::Result => entry_view("result", "Result", Target::Enum, seq![Constraint::Generics(2)], NamePolicy::Inherited, NamePolicy::Named("Result")),
            LangItem::ResultOk => entry_view("result_ok", "ResultOk", Target::EnumVariant, Seq::empty(), NamePolicy::Unnamed, NamePolicy::Named("Ok")),
            LangItem::ResultErr => entry_view("result_err", "ResultErr", Target::EnumVariant, Seq::empty(), NamePolicy::Unnamed, NamePolicy::Named("Err")),
            LangItem::ControlFlow => entry_view("control_flow", "ControlFlow", Target::Enum, Seq::empty(), NamePolicy::Inherited, NamePolicy::Unnamed),
            LangItem::ControlFlowBreak => entry_view("control_flow_break", "ControlFlowBreak", Target::EnumVariant, Seq::empty(), NamePolicy::Unnamed, NamePolicy::Named("Break")),
            LangItem::ControlFlowContinue => entry_view("control_flow_continue", "ControlFlowContinue", Target::EnumVariant, Seq::empty(), NamePolicy::Unnamed, NamePolicy::Named("Continue")),
            LangItem::Poll => entry_view("poll", "Poll", Target::Enum, seq![Constraint::Generics(1)], NamePolicy::Unnamed, NamePolicy::Named("Poll")),
            LangItem::PollReady => entry_view("poll_ready", "PollReady", Target::EnumVariant, Seq::empty(), NamePolicy::Unnamed, NamePolicy::Named("Ready")),
            LangItem::PollPending => entry_view("poll_pending", "PollPending", Target::EnumVariant, Seq::empty(), NamePolicy::Unnamed, NamePolicy::Named("Pending")),
            LangItem::CoroutineState => entry_view("coroutine_state", "CoroutineState", Target::Enum, Seq::empty(), NamePolicy::Unnamed, NamePolicy::Inherited),
            LangItem::CoroutineTrait => entry_view("coroutine_trait", "CoroutineTrait", Target::Trait, seq![Constraint::Generics(1), Constraint::Fundamental], NamePolicy::Unnamed, NamePolicy::Named("coroutine")),
            LangItem::CoroutineYield => entry_view("coroutine_yield", "CoroutineYield", Target::Type, Seq::empty(), NamePolicy::Unnamed, NamePolicy::Inherited),
            LangItem::CoroutineReturn => entry_view("coroutine_return", "CoroutineReturn", Target::Type, Seq::empty(), NamePolicy::Unnamed, NamePolicy::Inherited),
            LangItem::CoroutineResume => entry_view("coroutine_resume", "CoroutineResume", Target::Fn, seq![Constraint::Arguments(2)], NamePolicy::Unnamed, NamePolicy::Inherited),
            LangItem::SliceLen => entry_view("slice_len_fn", "SliceLen", Target::Fn, seq![Constraint::Arguments(1)], NamePolicy::Unnamed, NamePolicy::Inherited),
            LangItem::ContractBuildCheckEnsures => entry_view("contract_build_check_ensures", "ContractBuildCheckEnsures", Target::Fn, seq![Constraint::Generics(2), Constraint::Arguments(1), Constraint::Constness], NamePolicy::Unnamed, NamePolicy::Inherited),
            LangItem::ContractCheckRequires => entry_view("contract_check_requires", "ContractCheckRequires", Target::Fn, seq![Constraint::Generics(1), Constraint::Arguments(1), Constraint::Constness], NamePolicy::Unnamed, NamePolicy::Inherited),
            LangItem::ContractCheckEnsures => entry_view("contract_check_ensures", "ContractCheckEnsures", Target::Fn, seq![Constraint::Generics(2), Constraint::Arguments(2), Constraint::Constness], NamePolicy::Unnamed, NamePolicy::Inherited),
            LangItem::FormatArguments => entry_view("format_arguments", "FormatArguments", Target::Struct, seq![Constraint::Generics(1)], NamePolicy::Unnamed, NamePolicy::Inherited),
            LangItem::FormatArgument => entry_view("format_argument", "FormatArgument", Target::Struct, seq![Constraint::Generics(1)], NamePolicy::Unnamed, NamePolicy::Inherited),
            LangItem::FormatUnsafeArgument => entry_view("format_unsafe_arg", "FormatUnsafeArgument", Target::Struct, Seq::empty(), NamePolicy::Unnamed, NamePolicy::Inherited),
            LangItem::FormatPlaceholder => entry_view("format_placeholder", "FormatPlaceholder", Target::Struct, seq![Constraint::Generics(1)], NamePolicy::Unnamed, NamePolicy::Inherited),
            LangItem::FormatCount => entry_view("format_count", "FormatCount", Target::Enum, Seq::empty(), NamePolicy::Unnamed, NamePolicy::Inherited),
            LangItem::PanicLocation => entry_view("panic_location", "PanicLocation", Target::Struct, seq![Constraint::Generics(1)], NamePolicy::Unnamed, NamePolicy::Inherited),
            LangItem::PanicInfo => entry_view("panic_info", "PanicInfo", Target::Struct, seq![Constraint::Generics(1)], NamePolicy::Unnamed, NamePolicy::Inherited),
            LangItem::Panic => entry_view("panic", "Panic", Target::Fn, seq![Constraint::Arguments(1), Constraint::Constness], NamePolicy::Unnamed, NamePolicy::Inherited),
            LangItem::PanicImpl => entry_view("panic_impl", "PanicImpl", Target::Fn, seq![Constraint::Arguments(1)], NamePolicy::Unnamed, NamePolicy::Inherited),
            LangItem::PanicFmt => entry_view("panic_fmt", "PanicFmt", Target::Fn, seq![Constraint::Arguments(1), Constraint::Constness], NamePolicy::Unnamed, NamePolicy::Inherited),
            LangItem::PanicNounwind => entry_view("panic_nounwind", "PanicNounwind", Target::Fn, seq![Constraint::Arguments(1), Constraint::Constness], NamePolicy::Unnamed, NamePolicy::Inherited),
            LangItem::PanicBoundsCheck => entry_view("panic_bounds_check", "PanicBoundsCheck", Target::Fn, seq![Constraint::Arguments(2)], NamePolicy::Unnamed, NamePolicy::Inherited),
            LangItem::PanicMisalignedPointerDereference => entry_view("panic_misaligned_pointer_dereference", "PanicMisalignedPointerDereference", Target::Fn, seq![Constraint::Arguments(2)], NamePolicy::Unnamed, NamePolicy::Inherited),
            LangItem::PanicNullPointerDereference => entry_view("panic_null_pointer_dereference", "PanicNullPointerDereference", Target::Fn, seq![Constraint::Arguments(0)], NamePolicy::Unnamed, NamePolicy::Inherited),
            LangItem::PanicCannotUnwind => entry_view("panic_cannot_unwind", "PanicCannotUnwind", Target::Fn, seq![Constraint::Arguments(0)], NamePolicy::Unnamed, NamePolicy::Inherited),
            LangItem::PanicInCleanup => entry_view("panic_in_cleanup", "PanicInCleanup", Target::Fn, seq![Constraint::Arguments(0)], NamePolicy::Unnamed, NamePolicy::Inherited),
            LangItem::ConstPanicFmt => entry_view("const_panic_fmt", "ConstPanicFmt", Target::Fn, seq![Constraint::Arguments(1), Constraint::Constness], NamePolicy::Unnamed, NamePolicy::Inherited),
            LangItem::CStr => entry_view("cstr", "CStr", Target::Struct, seq![Constraint::Transparent], NamePolicy::Named("cstr_type"), NamePolicy::Named("CStr")),
            LangItem::CVoid => entry_view("cvoid", "CVoid", Target::Enum, seq![Constraint::CLayout], NamePolicy::Unnamed, NamePolicy::Named("c_void")),
        }
    }

    pub proof fn lemma_entry_name(self)
        ensures
            self.spec_entry().name == self.spec_name(),
    {
    }

    /// The registry's entry for this lang item.
    #[verifier::spinoff_prover]
    pub fn entry(self) -> (r: LangItemEntry)
        ensures
            r@ == self.spec_entry(),
    {
        match self {
            LangItem::Sized => entry("sized", "Sized", Target::Trait, constraints3(Constraint::Coinductive, Constraint::Fundamental, Constraint::Unimplementable), NamePolicy::Unnamed, NamePolicy::Inherited),
            LangItem::Unsize => entry("unsize", "Unsize", Target::Trait, constraints2(Constraint::Generics(1), Constraint::Unimplementable), NamePolicy::Unnamed, NamePolicy::Inherited),
            LangItem::CoerceUnsized => entry("coerce_unsized", "CoerceUnsized", Target::Trait, constraints0(), NamePolicy::Unnamed, NamePolicy::Inherited),
            LangItem::ConstParamTy => entry("const_param_ty", "ConstParamTy", Target::Trait, constraints0(), NamePolicy::Unnamed, NamePolicy::Inherited),
            LangItem::UnsizedConstParamTy => entry("unsized_const_param_ty", "UnsizedConstParamTy", Target::Trait, constraints0(), NamePolicy::Unnamed, NamePolicy::Inherited),
            LangItem::TupleTrait => entry("tuple_trait", "TupleTrait", Target::Trait, constraints1(Constraint::Unimplementable), NamePolicy::Unnamed, NamePolicy::Inherited),
            LangItem::StructuralPartialEq => entry("structural_peq", "StructuralPartialEq", Target::Trait, constraints0(), NamePolicy::Unnamed, NamePolicy::Inherited),
            LangItem::DiscriminantKind => entry("discriminant_kind", "DiscriminantKind", Target::Trait, constraints1(Constraint::Unimplementable), NamePolicy::Unnamed, NamePolicy::Inherited),
            LangItem::DiscriminantType => entry("discriminant_type", "DiscriminantType", Target::Type, constraints0(), NamePolicy::Unnamed, NamePolicy::Inherited),
            LangItem::Send => entry("send", "Send", Target::Trait, constraints2(Constraint::Unsafety, Constraint::Auto), NamePolicy::Unnamed, NamePolicy::Unnamed),
            LangItem::Sync => entry("sync", "Sync", Target::Trait, constraints2(Constraint::Unsafety, Constraint::Auto), NamePolicy::Unnamed, NamePolicy::Inherited),
            LangItem::Freeze => entry("freeze", "Freeze", Target::Trait, constraints2(Constraint::Unsafety, Constraint::Auto), NamePolicy::Unnamed, NamePolicy::Inherited),
            LangItem::Unpin => entry("unpin", "Unpin", Target::Trait, constraints1(Constraint::Auto), NamePolicy::Unnamed, NamePolicy::Inherited),
            LangItem::Copy => entry("copy", "Copy", Target::Trait, constraints0(), NamePolicy::Inherited, NamePolicy::Inherited),
            LangItem::Clone => entry("clone", "Clone", Target::Trait, constraints0(), NamePolicy::Inherited, NamePolicy::Inherited),
            LangItem::CloneFn => entry("clone_fn", "CloneFn", Target::Fn, constraints1(Constraint::Arguments(1)), NamePolicy::Unnamed, NamePolicy::Inherited),
            LangItem::Drop => entry("drop", "Drop", Target::Trait, constraints1(Constraint::Constness), NamePolicy::Unnamed, NamePolicy::Inherited),
            LangItem::Destruct => entry("destruct", "Destruct", Target::Trait, constraints2(Constraint::Constness, Constraint::Unimplementable), NamePolicy::Unnamed, NamePolicy::Inherited),
            LangItem::BikeshedGuaranteedNoDrop => entry("bikeshed_guaranteed_no_drop", "BikeshedGuaranteedNoDrop", Target::Trait, constraints1(Constraint::Unimplementable), NamePolicy::Unnamed, NamePolicy::Inherited),
            LangItem::AsyncDrop => entry("async_drop", "AsyncDrop", Target::Trait, constraints0(), NamePolicy::Unnamed, NamePolicy::Inherited),
            LangItem::FutureTrait => entry("future_trait", "FutureTrait", Target::Trait, constraints0(), NamePolicy::Unnamed, NamePolicy::Inherited),
            LangItem::FutureOutput => entry("future_output", "FutureOutput", Target::Type, constraints0(), NamePolicy::Unnamed, NamePolicy::Inherited),
            LangItem::FuturePoll => entry("future_poll", "FuturePoll", Target::Fn, constraints1(Constraint::Arguments(2)), NamePolicy::Unnamed, NamePolicy::Named("poll")),
            LangItem::IntoFutureTrait => entry("into_future_trait", "IntoFutureTrait", Target::Trait, constraints0(), NamePolicy::Named("IntoFuture"), NamePolicy::Unnamed),
            LangItem::IntoFutureFn => entry("into_future_fn", "IntoFutureFn", Target::Fn, constraints1(Constraint::Arguments(1)), NamePolicy::Unnamed, NamePolicy::Named("into_future")),
            LangItem::IntoIterTrait => entry("into_iterator_trait", "IntoIterTrait", Target::Trait, constraints0(), NamePolicy::Named("IntoIterator"), NamePolicy::Unnamed),
            LangItem::IntoIterFn => entry("into_iterator_fn", "IntoIterFn", Target::Fn, constraints1(Constraint::Arguments(1)), NamePolicy::Unnamed, NamePolicy::Named("into_iter")),
            LangItem::FusedIterator => entry("fused_iterator", "FusedIterator", Target::Trait, constraints0(), NamePolicy::Unnamed, NamePolicy::Inherited),
            LangItem::Iterator => entry("iterator", "Iterator", Target::Trait, constraints0(), NamePolicy::Inherited, NamePolicy::Inherited),
            LangItem::IteratorItem => entry("iterator_item", "IteratorItem", Target::Type, constraints0(), NamePolicy::Inherited, NamePolicy::Unnamed),
            LangItem::IteratorNext => entry("iterator_next", "IteratorNext", Target::Fn, constraints1(Constraint::Arguments(1)), NamePolicy::Unnamed, NamePolicy::Inherited),
            LangItem::TransmuteTrait => entry("transmute_trait", "TransmuteTrait", Target::Trait, constraints4(Constraint::Generics(2), Constraint::Unsafety, Constraint::Coinductive, Constraint::Unimplementable), NamePolicy::Unnamed, NamePolicy::Inherited),
            LangItem::TransmuteAssumption => entry("transmute_assumption", "TransmuteAssumption", Target::Struct, constraints0(), NamePolicy::Unnamed, NamePolicy::Named("transmute_opts")),
            LangItem::Deref => entry("deref", "Deref", Target::Trait, constraints1(Constraint::Constness), NamePolicy::Inherited, NamePolicy::Inherited),
            LangItem::DerefMut => entry("deref_mut", "DerefMut", Target::Trait, constraints1(Constraint::Constness), NamePolicy::Inherited, NamePolicy::Inherited),
            LangItem::DerefPure => entry("deref_pure", "DerefPure", Target::Trait, constraints1(Constraint::Unsafety), NamePolicy::Unnamed, NamePolicy::Inherited),
            LangItem::DerefTarget => entry("deref_target", "DerefTarget", Target::Type, constraints0(), NamePolicy::Unnamed, NamePolicy::Inherited),
            LangItem::LegacyReceiver => entry("legacy_receiver", "LegacyReceiver", Target::Trait, constraints0(), NamePolicy::Unnamed, NamePolicy::Inherited),
            LangItem::Receiver => entry("receiver", "Receiver", Target::Trait, constraints0(), NamePolicy::Unnamed, NamePolicy::Inherited),
            LangItem::ReceiverTarget => entry("receiver_target", "ReceiverTarget", Target::Type, constraints0(), NamePolicy::Named("receiver_target"), NamePolicy::Inherited),
            LangItem::DispatchFromDyn => entry("dispatch_from_dyn", "DispatchFromDyn", Target::Trait, constraints1(Constraint::Generics(1)), NamePolicy::Unnamed, NamePolicy::Inherited),
            LangItem::DynMetadata => entry("dyn_metadata", "DynMetadata", Target::Struct, constraints1(Constraint::Generics(1)), NamePolicy::Unnamed, NamePolicy::Inherited),
            LangItem::PointeeTrait => entry("pointee", "PointeeTrait", Target::Trait, constraints1(Constraint::Unimplementable), NamePolicy::Unnamed, NamePolicy::Named("pointee_trait")),
            LangItem::PointeeMetadata => entry("pointee_metadata", "PointeeMetadata", Target::Type, constraints0(), NamePolicy::Unnamed, NamePolicy::Named("metadata_type")),
            LangItem::PointerLike => entry("pointer_like", "PointerLike", Target::Trait, constraints1(Constraint::ObjectUnimplementable), NamePolicy::Unnamed, NamePolicy::Inherited),
            LangItem::CoercePointeeValidated => entry("coerce_pointee_validated", "CoercePointeeValidated", Target::Trait, constraints0(), NamePolicy::Unnamed, NamePolicy::Inherited),
            LangItem::FnPtrTrait => entry("fn_ptr_trait", "FnPtrTrait", Target::Trait, constraints1(Constraint::Unimplementable), NamePolicy::Unnamed, NamePolicy::Inherited),
            LangItem::FnPtrAddr => entry("fn_ptr_addr", "FnPtrAddr", Target::Fn, constraints1(Constraint::Arguments(1)), NamePolicy::Unnamed, NamePolicy::Inherited),
            LangItem::AsyncFn => entry("async_fn", "AsyncFn", Target::Trait, constraints1(Constraint::Generics(1)), NamePolicy::Unnamed, NamePolicy::Inherited),
            LangItem::AsyncFnMut => entry("async_fn_mut", "AsyncFnMut", Target::Trait, constraints1(Constraint::Generics(1)), NamePolicy::Unnamed, NamePolicy::Inherited),
            LangItem::AsyncFnCallRefFuture => entry("async_fn_call_ref_future", "AsyncFnCallRefFuture", Target::Type, constraints1(Constraint::Generics(1)), NamePolicy::Unnamed, NamePolicy::Named("call_ref_future")),
            LangItem::AsyncFnOnce => entry("async_fn_once", "AsyncFnOnce", Target::Trait, constraints1(Constraint::Generics(1)), NamePolicy::Unnamed, NamePolicy::Inherited),
            LangItem::AsyncFnCallOnceFuture => entry("async_fn_call_once_future", "AsyncFnCallOnceFuture", Target::Type, constraints1(Constraint::Generics(1)), NamePolicy::Unnamed, NamePolicy::Named("call_once_future")),
            LangItem::AsyncFnOnceOutput => entry("async_fn_once_output", "AsyncFnOnceOutput", Target::Type, constraints0(), NamePolicy::Unnamed, NamePolicy::Inherited),
            LangItem::AsyncFnKindHelper => entry("async_fn_kind_helper", "AsyncFnKindHelper", Target::Trait, constraints1(Constraint::Generics(1)), NamePolicy::Unnamed, NamePolicy::Inherited),
            LangItem::AsyncFnKindUpvars => entry("async_fn_kind_upvars", "AsyncFnKindUpvars", Target::Type, constraints1(Constraint::Generics(4)), NamePolicy::Unnamed, NamePolicy::Inherited),
            LangItem::Fn => entry("fn", "Fn", Target::Trait, constraints2(Constraint::Generics(1), Constraint::Fundamental), NamePolicy::Unnamed, NamePolicy::Inherited),
            LangItem::FnMut => entry("fn_mut", "FnMut", Target::Trait, constraints2(Constraint::Generics(1), Constraint::Fundamental), NamePolicy::Unnamed, NamePolicy::Inherited),
            LangItem::FnOnce => entry("fn_once", "FnOnce", Target::Trait, constraints2(Constraint::Generics(1), Constraint::Fundamental), NamePolicy::Unnamed, NamePolicy::Inherited),
            LangItem::FnOnceOutput => entry("fn_once_output", "FnOnceOutput", Target::Type, constraints0(), NamePolicy::Unnamed, NamePolicy::Inherited),
            LangItem::Try => entry("try", "Try", Target::Trait, constraints0(), NamePolicy::Unnamed, NamePolicy::Named("Try")),
            LangItem::TryBranchFn => entry("try_branch_fn", "TryBranchFn", Target::Fn, constraints1(Constraint::Arguments(1)), NamePolicy::Unnamed, NamePolicy::Named("branch")),
            LangItem::TryFromOutputFn => entry("try_from_output_fn", "TryFromOutputFn", Target::Fn, constraints1(Constraint::Arguments(1)), NamePolicy::Unnamed, NamePolicy::Named("from_output")),
            LangItem::FromResidual => entry("from_residual", "FromResidual", Target::Trait, constraints1(Constraint::Generics(1)), NamePolicy::Inherited, NamePolicy::Unnamed),
            LangItem::FromResidualFn => entry("from_residual_fn", "FromResidualFn", Target::Trait, constraints0(), NamePolicy::Unnamed, NamePolicy::Named("from_residual")),
            LangItem::FromYeet => entry("from_yeet", "FromYeet", Target::Fn, constraints1(Constraint::Arguments(1)), NamePolicy::Unnamed, NamePolicy::Inherited),
            LangItem::Add => entry("add", "Add", Target::Trait, constraints1(Constraint::Generics(1)), NamePolicy::Unnamed, NamePolicy::Inherited),
            LangItem::Sub => entry("sub", "Sub", Target::Trait, constraints1(Constraint::Generics(1)), NamePolicy::Unnamed, NamePolicy::Inherited),
            LangItem::Mul => entry("mul", "Mul", Target::Trait, constraints1(Constraint::Generics(1)), NamePolicy::Unnamed, NamePolicy::Inherited),
            LangItem::Div => entry("div", "Div", Target::Trait, constraints1(Constraint::Generics(1)), NamePolicy::Unnamed, NamePolicy::Inherited),
            LangItem::Rem => entry("rem", "Rem", Target::Trait, constraints1(Constraint::Generics(1)), NamePolicy::Unnamed, NamePolicy::Inherited),
            LangItem::BitXor => entry("bit_xor", "BitXor", Target::Trait, constraints1(Constraint::Generics(1)), NamePolicy::Unnamed, NamePolicy::Inherited),
            LangItem::BitAnd => entry("bit_and", "BitAnd", Target::Trait, constraints1(Constraint::Generics(1)), NamePolicy::Unnamed, NamePolicy::Inherited),
            LangItem::BitOr => entry("bit_or", "BitOr", Target::Trait, constraints1(Constraint::Generics(1)), NamePolicy::Unnamed, NamePolicy::Inherited),
            LangItem::Shl => entry("shl", "Shl", Target::Trait, constraints1(Constraint::Generics(1)), NamePolicy::Unnamed, NamePolicy::Inherited),
            LangItem::Shr => entry("shr", "Shr", Target::Trait, constraints1(Constraint::Generics(1)), NamePolicy::Unnamed, NamePolicy::Inherited),
            LangItem::AddAssign => entry("add_assign", "AddAssign", Target::Trait, constraints1(Constraint::Generics(1)), NamePolicy::Unnamed, NamePolicy::Inherited),
            LangItem::SubAssign => entry("sub_assign", "SubAssign", Target::Trait, constraints1(Constraint::Generics(1)), NamePolicy::Unnamed, NamePolicy::Inherited),
            LangItem::MulAssign => entry("mul_assign", "MulAssign", Target::Trait, constraints1(Constraint::Generics(1)), NamePolicy::Unnamed, NamePolicy::Inherited),
            LangItem::DivAssign => entry("div_assign", "DivAssign", Target::Trait, constraints1(Constraint::Generics(1)), NamePolicy::Unnamed, NamePolicy::Inherited),
            LangItem::RemAssign => entry("rem_assign", "RemAssign", Target::Trait, constraints1(Constraint::Generics(1)), NamePolicy::Unnamed, NamePolicy::Inherited),
            LangItem::BitXorAssign => entry("bit_xor_assign", "BitXorAssign", Target::Trait, constraints1(Constraint::Generics(1)), NamePolicy::Unnamed, NamePolicy::Inherited),
            LangItem::BitAndAssign => entry("bit_and_assign", "BitAndAssign", Target::Trait, constraints1(Constraint::Generics(1)), NamePolicy::Unnamed, NamePolicy::Inherited),
            LangItem::BitOrAssign => entry("bit_or_assign", "BitOrAssign", Target::Trait, constraints1(Constraint::Generics(1)), NamePolicy::Unnamed, NamePolicy::Inherited),
            LangItem::ShlAssign => entry("shl_assign", "ShlAssign", Target::Trait, constraints1(Constraint::Generics(1)), NamePolicy::Unnamed, NamePolicy::Inherited),
            LangItem::ShrAssign => entry("shr_assign", "ShrAssign", Target::Trait, constraints1(Constraint::Generics(1)), NamePolicy::Unnamed, NamePolicy::Inherited),
            LangItem::Index => entry("index", "Index", Target::Trait, constraints1(Constraint::Generics(1)), NamePolicy::Unnamed, NamePolicy::Inherited),
            LangItem::IndexMut => entry("index_mut", "IndexMut", Target::Trait, constraints1(Constraint::Generics(1)), NamePolicy::Unnamed, NamePolicy::Inherited),
            LangItem::PartialEq => entry("partial_eq", "PartialEq", Target::Trait, constraints1(Constraint::Generics(1)), NamePolicy::Inherited, NamePolicy::Named("eq")),
            LangItem::PartialOrd => entry("partial_ord", "PartialOrd", Target::Trait, constraints1(Constraint::Generics(1)), NamePolicy::Inherited, NamePolicy::Inherited),
            LangItem::Neg => entry("neg", "Neg", Target::Trait, constraints0(), NamePolicy::Unnamed, NamePolicy::Inherited),
            LangItem::Not => entry("not", "Not", Target::Trait, constraints0(), NamePolicy::Unnamed, NamePolicy::Inherited),
            LangItem::ManuallyDrop => entry("manually_drop", "ManuallyDrop", Target::Struct, constraints2(Constraint::Generics(1), Constraint::Transparent), NamePolicy::Unnamed, NamePolicy::Inherited),
            LangItem::MaybeUninit => entry("maybe_uninit", "MaybeUninit", Target::Union, constraints2(Constraint::Generics(1), Constraint::Transparent), NamePolicy::Unnamed, NamePolicy::Inherited),
            LangItem::UnsafeCell => entry("unsafe_cell", "UnsafeCell", Target::Struct, constraints2(Constraint::Generics(1), Constraint::Transparent), NamePolicy::Unnamed, NamePolicy::Inherited),
            LangItem::PhantomData => entry("phantom_data", "PhantomData", Target::Struct, constraints1(Constraint::Generics(1)), NamePolicy::Unnamed, NamePolicy::Inherited),
            LangItem::Ordering => entry("ordering", "Ordering", Target::Enum, constraints0(), NamePolicy::Unnamed, NamePolicy::Named("Ordering")),
            LangItem::ResumeTy => entry("resume", "ResumeTy", Target::Struct, constraints0(), NamePolicy::Unnamed, NamePolicy::Named("ResumeTy")),
            LangItem::Context => entry("context", "Context", Target::Struct, constraints1(Constraint::Generics(1)), NamePolicy::Unnamed, NamePolicy::Named("Context")),
            LangItem::GetContext => entry("get_context", "GetContext", Target::Fn, constraints3(Constraint::Generics(2), Constraint::Arguments(1), Constraint::Unsafety), NamePolicy::Unnamed, NamePolicy::Named("get_context")),
            LangItem::AsyncDropInPlace => entry("async_drop_in_place", "AsyncDropInPlace", Target::Fn, constraints3(Constraint::Generics(1), Constraint::Arguments(1), Constraint::Unsafety), NamePolicy::Named("ptr_drop_in_place"), NamePolicy::Inherited),
            LangItem::DropInPlace => entry("drop_in_place", "DropInPlace", Target::Fn, constraints3(Constraint::Generics(1), Constraint::Arguments(1), Constraint::Unsafety), NamePolicy::Named("ptr_drop_in_place"), NamePolicy::Inherited),
            LangItem::AllocLayout => entry("layout", "AllocLayout", Target::Struct, constraints0(), NamePolicy::Unnamed, NamePolicy::Named("alloc_layout")),
            LangItem::Unique => entry("unique", "Unique", Target::Struct, constraints2(Constraint::Generics(1), Constraint::Transparent), NamePolicy::Unnamed, NamePolicy::Named("ptr_unique")),
            LangItem::Pin => entry("pin", "Pin", Target::Struct, constraints3(Constraint::Generics(1), Constraint::Fundamental, Constraint::Transparent), NamePolicy::Unnamed, NamePolicy::Inherited),
            LangItem::PinNewUnchecked => entry("pin_new_unchecked", "PinNewUnchecked", Target::Struct, constraints2(Constraint::Constness, Constraint::Unsafety), NamePolicy::Unnamed, NamePolicy::Named("new_unchecked")),
            LangItem::Option => entry("option", "Option", Target::Enum, constraints1(Constraint::Generics(1)), NamePolicy::Inherited, NamePolicy::Named("Option")),
            LangItem::OptionNone => entry("option_none", "OptionNone", Target::EnumVariant, constraints0(), NamePolicy::Unnamed, NamePolicy::Named("None")),
            LangItem::OptionSome => entry("option_some", "OptionSome", Target::EnumVariant, constraints0(), NamePolicy::Unnamed, NamePolicy::Named("Some")),
            LangItem::Result => entry("result", "Result", Target::Enum, constraints1(Constraint::Generics(2)), NamePolicy::Inherited, NamePolicy::Named("Result")),
            LangItem::ResultOk => entry("result_ok", "ResultOk", Target::EnumVariant, constraints0(), NamePolicy::Unnamed, NamePolicy::Named("Ok")),
            LangItem::ResultErr => entry("result_err", "ResultErr", Target::EnumVariant, constraints0(), NamePolicy::Unnamed, NamePolicy::Named("Err")),
            LangItem::ControlFlow => entry("control_flow", "ControlFlow", Target::Enum, constraints0(), NamePolicy::Inherited, NamePolicy::Unnamed),
            LangItem::ControlFlowBreak => entry("control_flow_break", "ControlFlowBreak", Target::EnumVariant, constraints0(), NamePolicy::Unnamed, NamePolicy::Named("Break")),
            LangItem::ControlFlowContinue => entry("control_flow_continue", "ControlFlowContinue", Target::EnumVariant, constraints0(), NamePolicy::Unnamed, NamePolicy::Named("Continue")),
            LangItem::Poll => entry("poll", "Poll", Target::Enum, constraints1(Constraint::Generics(1)), NamePolicy::Unnamed, NamePolicy::Named("Poll")),
            LangItem::PollReady => entry("poll_ready", "PollReady", Target::EnumVariant, constraints0(), NamePolicy::Unnamed, NamePolicy::Named("Ready")),
            LangItem::PollPending => entry("poll_pending", "PollPending", Target::EnumVariant, constraints0(), NamePolicy::Unnamed, NamePolicy::Named("Pending")),
            LangItem::CoroutineState => entry("coroutine_state", "CoroutineState", Target::Enum, constraints0(), NamePolicy::Unnamed, NamePolicy::Inherited),
            LangItem::CoroutineTrait => entry("coroutine_trait", "CoroutineTrait", Target::Trait, constraints2(Constraint::Generics(1), Constraint::Fundamental), NamePolicy::Unnamed, NamePolicy::Named("coroutine")),
            LangItem::CoroutineYield => entry("coroutine_yield", "CoroutineYield", Target::Type, constraints0(), NamePolicy::Unnamed, NamePolicy::Inherited),
            LangItem::CoroutineReturn => entry("coroutine_return", "CoroutineReturn", Target::Type, constraints0(), NamePolicy::Unnamed, NamePolicy::Inherited),
            LangItem::CoroutineResume => entry("coroutine_resume", "CoroutineResume", Target::Fn, constraints1(Constraint::Arguments(2)), NamePolicy::Unnamed, NamePolicy::Inherited),
            LangItem::SliceLen => entry("slice_len_fn", "SliceLen", Target::Fn, constraints1(Constraint::Arguments(1)), NamePolicy::Unnamed, NamePolicy::Inherited),
            LangItem::ContractBuildCheckEnsures => entry("contract_build_check_ensures", "ContractBuildCheckEnsures", Target::Fn, constraints3(Constraint::Generics(2), Constraint::Arguments(1), Constraint::Constness), NamePolicy::Unnamed, NamePolicy::Inherited),
            LangItem::ContractCheckRequires => entry("contract_check_requires", "ContractCheckRequires", Target::Fn, constraints3(Constraint::Generics(1), Constraint::Arguments(1), Constraint::Constness), NamePolicy::Unnamed, NamePolicy::Inherited),
            LangItem::ContractCheckEnsures => entry("contract_check_ensures", "ContractCheckEnsures", Target::Fn, constraints3(Constraint::Generics(2), Constraint::Arguments(2), Constraint::Constness), NamePolicy::Unnamed, NamePolicy::Inherited),
            LangItem::FormatArguments => entry("format_arguments", "FormatArguments", Target::Struct, constraints1(Constraint::Generics(1)), NamePolicy::Unnamed, NamePolicy::Inherited),
            LangItem::FormatArgument => entry("format_argument", "FormatArgument", Target::Struct, constraints1(Constraint::Generics(1)), NamePolicy::Unnamed, NamePolicy::Inherited),
            LangItem::FormatUnsafeArgument => entry("format_unsafe_arg", "FormatUnsafeArgument", Target::Struct, constraints0(), NamePolicy::Unnamed, NamePolicy::Inherited),
            LangItem::FormatPlaceholder => entry("format_placeholder", "FormatPlaceholder", Target::Struct, constraints1(Constraint::Generics(1)), NamePolicy::Unnamed, NamePolicy::Inherited),
            LangItem::FormatCount => entry("format_count", "FormatCount", Target::Enum, constraints0(), NamePolicy::Unnamed, NamePolicy::Inherited),
            LangItem::PanicLocation => entry("panic_location", "PanicLocation", Target::Struct, constraints1(Constraint::Generics(1)), NamePolicy::Unnamed, NamePolicy::Inherited),
            LangItem::PanicInfo => entry("panic_info", "PanicInfo", Target::Struct, constraints1(Constraint::Generics(1)), NamePolicy::Unnamed, NamePolicy::Inherited),
            LangItem::Panic => entry("panic", "Panic", Target::Fn, constraints2(Constraint::Arguments(1), Constraint::Constness), NamePolicy::Unnamed, NamePolicy::Inherited),
            LangItem::PanicImpl => entry("panic_impl", "PanicImpl", Target::Fn, constraints1(Constraint::Arguments(1)), NamePolicy::Unnamed, NamePolicy::Inherited),
            LangItem::PanicFmt => entry("panic_fmt", "PanicFmt", Target::Fn, constraints2(Constraint::Arguments(1), Constraint::Constness), NamePolicy::Unnamed, NamePolicy::Inherited),
            LangItem::PanicNounwind => entry("panic_nounwind", "PanicNounwind", Target::Fn, constraints2(Constraint::Arguments(1), Constraint::Constness), NamePolicy::Unnamed, NamePolicy::Inherited),
            LangItem::PanicBoundsCheck => entry("panic_bounds_check", "PanicBoundsCheck", Target::Fn, constraints1(Constraint::Arguments(2)), NamePolicy::Unnamed, NamePolicy::Inherited),
            LangItem::PanicMisalignedPointerDereference => entry("panic_misaligned_pointer_dereference", "PanicMisalignedPointerDereference", Target::Fn, constraints1(Constraint::Arguments(2)), NamePolicy::Unnamed, NamePolicy::Inherited),
            LangItem::PanicNullPointerDereference => entry("panic_null_pointer_dereference", "PanicNullPointerDereference", Target::Fn, constraints1(Constraint::Arguments(0)), NamePolicy::Unnamed, NamePolicy::Inherited),
            LangItem::PanicCannotUnwind => entry("panic_cannot_unwind", "PanicCannotUnwind", Target::Fn, constraints1(Constraint::Arguments(0)), NamePolicy::Unnamed, NamePolicy::Inherited),
            LangItem::PanicInCleanup => entry("panic_in_cleanup", "PanicInCleanup", Target::Fn, constraints1(Constraint::Arguments(0)), NamePolicy::Unnamed, NamePolicy::Inherited),
            LangItem::ConstPanicFmt => entry("const_panic_fmt", "ConstPanicFmt", Target::Fn, constraints2(Constraint::Arguments(1), Constraint::Constness), NamePolicy::Unnamed, NamePolicy::Inherited),
            LangItem::CStr => entry("cstr", "CStr", Target::Struct, constraints1(Constraint::Transparent), NamePolicy::Named("cstr_type"), NamePolicy::Named("CStr")),
            LangItem::CVoid => entry("cvoid", "CVoid", Target::Enum, constraints1(Constraint::CLayout), NamePolicy::Unnamed, NamePolicy::Named("c_void")),
        }
    }
}

/// Whether two constraints are of the same kind, whatever count they carry.
pub open spec fn same_kind(a: Constraint, b: Constraint) -> bool {
    match (a, b) {
        (Constraint::Generics(_), Constraint::Generics(_)) => true,
        (Constraint::Arguments(_), Constraint::Arguments(_)) => true,
        _ => a == b,
    }
}

/// No registry entry lists two constraints of the same kind.
#[verifier::spinoff_prover]
pub proof fn law_constraint_kinds_distinct(li: LangItem)
    ensures
        forall|i: int, j: int|
            0 <= i < j < li.spec_entry().constraints.len() ==> !same_kind(
                #[trigger] li.spec_entry().constraints[i],
                #[trigger] li.spec_entry().constraints[j],
            ),
{
    match li {
        LangItem::Sized => {},
        LangItem::Unsize => {},
        LangItem::CoerceUnsized => {},
        LangItem::ConstParamTy => {},
        LangItem::UnsizedConstParamTy => {},
        LangItem::TupleTrait => {},
        LangItem::StructuralPartialEq => {},
        LangItem::DiscriminantKind => {},
        LangItem::DiscriminantType => {},
        LangItem::Send => {},
        LangItem::Sync => {},
        LangItem::Freeze => {},
        LangItem::Unpin => {},
        LangItem::Copy => {},
        LangItem::Clone => {},
        LangItem::CloneFn => {},
        LangItem::Drop => {},
        LangItem::Destruct => {},
        LangItem::BikeshedGuaranteedNoDrop => {},
        LangItem::AsyncDrop => {},
        LangItem::FutureTrait => {},
        LangItem::FutureOutput => {},
        LangItem::FuturePoll => {},
        LangItem::IntoFutureTrait => {},
        LangItem::IntoFutureFn => {},
        LangItem::IntoIterTrait => {},
        LangItem::IntoIterFn => {},
        LangItem::FusedIterator => {},
        LangItem::Iterator => {},
        LangItem::IteratorItem => {},
        LangItem::IteratorNext => {},
        LangItem::TransmuteTrait => {},
        LangItem::TransmuteAssumption => {},
        LangItem::Deref => {},
        LangItem::DerefMut => {},
        LangItem::DerefPure => {},
        LangItem::DerefTarget => {},
        LangItem::LegacyReceiver => {},
        LangItem::Receiver => {},
        LangItem::ReceiverTarget => {},
        LangItem::DispatchFromDyn => {},
        LangItem::DynMetadata => {},
        LangItem::PointeeTrait => {},
        LangItem::PointeeMetadata => {},
        LangItem::PointerLike => {},
        LangItem::CoercePointeeValidated => {},
        LangItem::FnPtrTrait => {},
        LangItem::FnPtrAddr => {},
        LangItem::AsyncFn => {},
        LangItem::AsyncFnMut => {},
        LangItem::AsyncFnCallRefFuture => {},
        LangItem::AsyncFnOnce => {},
        LangItem::AsyncFnCallOnceFuture => {},
        LangItem::AsyncFnOnceOutput => {},
        LangItem::AsyncFnKindHelper => {},
        LangItem::AsyncFnKindUpvars => {},
        LangItem::Fn => {},
        LangItem::FnMut => {},
        LangItem::FnOnce => {},
        LangItem::FnOnceOutput => {},
        LangItem::Try => {},
        LangItem::TryBranchFn => {},
        LangItem::TryFromOutputFn => {},
        LangItem::FromResidual => {},
        LangItem::FromResidualFn => {},
        LangItem::FromYeet => {},
        LangItem::Add => {},
        LangItem::Sub => {},
        LangItem::Mul => {},
        LangItem::Div => {},
        LangItem::Rem => {},
        LangItem::BitXor => {},
        LangItem::BitAnd => {},
        LangItem::BitOr => {},
        LangItem::Shl => {},
        LangItem::Shr => {},
        LangItem::AddAssign => {},
        LangItem::SubAssign => {},
        LangItem::MulAssign => {},
        LangItem::DivAssign => {},
        LangItem::RemAssign => {},
        LangItem::BitXorAssign => {},
        LangItem::BitAndAssign => {},
        LangItem::BitOrAssign => {},
        LangItem::ShlAssign => {},
        LangItem::ShrAssign => {},
        LangItem::Index => {},
        LangItem::IndexMut => {},
        LangItem::PartialEq => {},
        LangItem::PartialOrd => {},
        LangItem::Neg => {},
        LangItem::Not => {},
        LangItem::ManuallyDrop => {},
        LangItem::MaybeUninit => {},
        LangItem::UnsafeCell => {},
        LangItem::PhantomData => {},
        LangItem::Ordering => {},
        LangItem::ResumeTy => {},
        LangItem::Context => {},
        LangItem::GetContext => {},
        LangItem::AsyncDropInPlace => {},
        LangItem::DropInPlace => {},
        LangItem::AllocLayout => {},
        LangItem::Unique => {},
        LangItem::Pin => {},
        LangItem::PinNewUnchecked => {},
        LangItem::Option => {},
        LangItem::OptionNone => {},
        LangItem::OptionSome => {},
        LangItem::Result => {},
        LangItem::ResultOk => {},
        LangItem::ResultErr => {},
        LangItem::ControlFlow => {},
        LangItem::ControlFlowBreak => {},
        LangItem::ControlFlowContinue => {},
        LangItem::Poll => {},
        LangItem::PollReady => {},
        LangItem::PollPending => {},
        LangItem::CoroutineState => {},
        LangItem::CoroutineTrait => {},
        LangItem::CoroutineYield => {},
        LangItem::CoroutineReturn => {},
        LangItem::CoroutineResume => {},
        LangItem::SliceLen => {},
        LangItem::ContractBuildCheckEnsures => {},
        LangItem::ContractCheckRequires => {},
        LangItem::ContractCheckEnsures => {},
        LangItem::FormatArguments => {},
        LangItem::FormatArgument => {},
        LangItem::FormatUnsafeArgument => {},
        LangItem::FormatPlaceholder => {},
        LangItem::FormatCount => {},
        LangItem::PanicLocation => {},
        LangItem::PanicInfo => {},
        LangItem::Panic => {},
        LangItem::PanicImpl => {},
        LangItem::PanicFmt => {},
        LangItem::PanicNounwind => {},
        LangItem::PanicBoundsCheck => {},
        LangItem::PanicMisalignedPointerDereference => {},
        LangItem::PanicNullPointerDereference => {},
        LangItem::PanicCannotUnwind => {},
        LangItem::PanicInCleanup => {},
        LangItem::ConstPanicFmt => {},
        LangItem::CStr => {},
        LangItem::CVoid => {},
    }
}

/// Whether two texts hold the same characters.
pub fn same_text(a: &str, b: &str) -> (r: bool)
    ensures
        r == (a@ == b@),
{
    let n = a.unicode_len();
    if n != b.unicode_len() {
        return false;
    }
    let mut i: usize = 0;
    while i < n
        invariant
            n == a@.len(),
            n == b@.len(),
            i <= n,
            forall|j: int| 0 <= j < i ==> a@[j] == b@[j],
        decreases n - i,
    {
        if a.get_char(i) != b.get_char(i) {
            return false;
        }
        i = i + 1;
    }
    assert(a@ =~= b@);
    true
}

/// Why a name or a declaration is refused as a lang item.
#[derive(Debug, Clone, PartialEq, Eq)]
pub enum LangItemError {
    /// No lang item has this name.
    Unknown(String),
    /// The declaration is not of the lang item's shape.
    WrongTarget(LangItem),
    /// A modifier the lang item asks for is missing from the declaration.
    MissingModifier(LangItem, Constraint),
    /// The declaration has a number of arguments other than the one asked for.
    ArgumentCount { item: LangItem, expected: usize, found: usize },
    /// The declaration has a number of generic parameters other than the one asked for.
    GenericCount { item: LangItem, expected: usize, found: usize },
    /// A property the lang item asks for is not established by the declaration.
    MissingProperty(LangItem, Constraint),
}

/// Whether some lang item is registered under `name`.
pub open spec fn is_registered(name: Seq<char>) -> bool {
    exists|li: LangItem| #[trigger] li.spec_name()@ == name
}

/// Looks up the lang item registered under `name`, by exact match.
#[verifier::spinoff_prover]
pub fn resolve(name: &str) -> (r: Result<LangItem, LangItemError>)
    ensures
        match r {
            Ok(li) => li.spec_name()@ == name@,
            Err(e) => !is_registered(name@) && (e matches LangItemError::Unknown(n) && n@ == name@),
        },
{
    if same_text(name, "sized") {
        return Ok(LangItem::Sized);
    }
    if same_text(name, "unsize") {
        return Ok(LangItem::Unsize);
    }
    if same_text(name, "coerce_unsized") {
        return Ok(LangItem::CoerceUnsized);
    }
    if same_text(name, "const_param_ty") {
        return Ok(LangItem::ConstParamTy);
    }
    if same_text(name, "unsized_const_param_ty") {
        return Ok(LangItem::UnsizedConstParamTy);
    }
    if same_text(name, "tuple_trait") {
        return Ok(LangItem::TupleTrait);
    }
    if same_text(name, "structural_peq") {
        return Ok(LangItem::StructuralPartialEq);
    }
    if same_text(name, "discriminant_kind") {
        return Ok(LangItem::DiscriminantKind);
    }
    if same_text(name, "discriminant_type") {
        return Ok(LangItem::DiscriminantType);
    }
    if same_text(name, "send") {
        return Ok(LangItem::Send);
    }
    if same_text(name, "sync") {
        return Ok(LangItem::Sync);
    }
    if same_text(name, "freeze") {
        return Ok(LangItem::Freeze);
    }
    if same_text(name, "unpin") {
        return Ok(LangItem::Unpin);
    }
    if same_text(name, "copy") {
        return Ok(LangItem::Copy);
    }
    if same_text(name, "clone") {
        return Ok(LangItem::Clone);
    }
    if same_text(name, "clone_fn") {
        return Ok(LangItem::CloneFn);
    }
    if same_text(name, "drop") {
        return Ok(LangItem::Drop);
    }
    if same_text(name, "destruct") {
        return Ok(LangItem::Destruct);
    }
    if same_text(name, "bikeshed_guaranteed_no_drop") {
        return Ok(LangItem::BikeshedGuaranteedNoDrop);
    }
    if same_text(name, "async_drop") {
        return Ok(LangItem::AsyncDrop);
    }
    if same_text(name, "future_trait") {
        return Ok(LangItem::FutureTrait);
    }
    if same_text(name, "future_output") {
        return Ok(LangItem::FutureOutput);
    }
    if same_text(name, "future_poll") {
        return Ok(LangItem::FuturePoll);
    }
    if same_text(name, "into_future_trait") {
        return Ok(LangItem::IntoFutureTrait);
    }
    if same_text(name, "into_future_fn") {
        return Ok(LangItem::IntoFutureFn);
    }
    if same_text(name, "into_iterator_trait") {
        return Ok(LangItem::IntoIterTrait);
    }
    if same_text(name, "into_iterator_fn") {
        return Ok(LangItem::IntoIterFn);
    }
    if same_text(name, "fused_iterator") {
        return Ok(LangItem::FusedIterator);
    }
    if same_text(name, "iterator") {
        return Ok(LangItem::Iterator);
    }
    if same_text(name, "iterator_item") {
        return Ok(LangItem::IteratorItem);
    }
    if same_text(name, "iterator_next") {
        return Ok(LangItem::IteratorNext);
    }
    if same_text(name, "transmute_trait") {
        return Ok(LangItem::TransmuteTrait);
    }
    if same_text(name, "transmute_assumption") {
        return Ok(LangItem::TransmuteAssumption);
    }
    if same_text(name, "deref") {
        return Ok(LangItem::Deref);
    }
    if same_text(name, "deref_mut") {
        return Ok(LangItem::DerefMut);
    }
    if same_text(name, "deref_pure") {
        return Ok(LangItem::DerefPure);
    }
    if same_text(name, "deref_target") {
        return Ok(LangItem::DerefTarget);
    }
    if same_text(name, "legacy_receiver") {
        return Ok(LangItem::LegacyReceiver);
    }
    if same_text(name, "receiver") {
        return Ok(LangItem::Receiver);
    }
    if same_text(name, "receiver_target") {
        return Ok(LangItem::ReceiverTarget);
    }
    if same_text(name, "dispatch_from_dyn") {
        return Ok(LangItem::DispatchFromDyn);
    }
    if same_text(name, "dyn_metadata") {
        return Ok(LangItem::DynMetadata);
    }
    if same_text(name, "pointee") {
        return Ok(LangItem::PointeeTrait);
    }
    if same_text(name, "pointee_metadata") {
        return Ok(LangItem::PointeeMetadata);
    }
    if same_text(name, "pointer_like") {
        return Ok(LangItem::PointerLike);
    }
    if same_text(name, "coerce_pointee_validated") {
        return Ok(LangItem::CoercePointeeValidated);
    }
    if same_text(name, "fn_ptr_trait") {
        return Ok(LangItem::FnPtrTrait);
    }
    if same_text(name, "fn_ptr_addr") {
        return Ok(LangItem::FnPtrAddr);
    }
    if same_text(name, "async_fn") {
        return Ok(LangItem::AsyncFn);
    }
    if same_text(name, "async_fn_mut") {
        return Ok(LangItem::AsyncFnMut);
    }
    if same_text(name, "async_fn_call_ref_future") {
        return Ok(LangItem::AsyncFnCallRefFuture);
    }
    if same_text(name, "async_fn_once") {
        return Ok(LangItem::AsyncFnOnce);
    }
    if same_text(name, "async_fn_call_once_future") {
        return Ok(LangItem::AsyncFnCallOnceFuture);
    }
    if same_text(name, "async_fn_once_output") {
        return Ok(LangItem::AsyncFnOnceOutput);
    }
    if same_text(name, "async_fn_kind_helper") {
        return Ok(LangItem::AsyncFnKindHelper);
    }
    if same_text(name, "async_fn_kind_upvars") {
        return Ok(LangItem::AsyncFnKindUpvars);
    }
    if same_text(name, "fn") {
        return Ok(LangItem::Fn);
    }
    if same_text(name, "fn_mut") {
        return Ok(LangItem::FnMut);
    }
    if same_text(name, "fn_once") {
        return Ok(LangItem::FnOnce);
    }
    if same_text(name, "fn_once_output") {
        return Ok(LangItem::FnOnceOutput);
    }
    if same_text(name, "try") {
        return Ok(LangItem::Try);
    }
    if same_text(name, "try_branch_fn") {
        return Ok(LangItem::TryBranchFn);
    }
    if same_text(name, "try_from_output_fn") {
        return Ok(LangItem::TryFromOutputFn);
    }
    if same_text(name, "from_residual") {
        return Ok(LangItem::FromResidual);
    }
    if same_text(name, "from_residual_fn") {
        return Ok(LangItem::FromResidualFn);
    }
    if same_text(name, "from_yeet") {
        return Ok(LangItem::FromYeet);
    }
    if same_text(name, "add") {
        return Ok(LangItem::Add);
    }
    if same_text(name, "sub") {
        return Ok(LangItem::Sub);
    }
    if same_text(name, "mul") {
        return Ok(LangItem::Mul);
    }
    if same_text(name, "div") {
        return Ok(LangItem::Div);
    }
    if same_text(name, "rem") {
        return Ok(LangItem::Rem);
    }
    if same_text(name, "bit_xor") {
        return Ok(LangItem::BitXor);
    }
    if same_text(name, "bit_and") {
        return Ok(LangItem::BitAnd);
    }
    if same_text(name, "bit_or") {
        return Ok(LangItem::BitOr);
    }
    if same_text(name, "shl") {
        return Ok(LangItem::Shl);
    }
    if same_text(name, "shr") {
        return Ok(LangItem::Shr);
    }
    if same_text(name, "add_assign") {
        return Ok(LangItem::AddAssign);
    }
    if same_text(name, "sub_assign") {
        return Ok(LangItem::SubAssign);
    }
    if same_text(name, "mul_assign") {
        return Ok(LangItem::MulAssign);
    }
    if same_text(name, "div_assign") {
        return Ok(LangItem::DivAssign);
    }
    if same_text(name, "rem_assign") {
        return Ok(LangItem::RemAssign);
    }
    if same_text(name, "bit_xor_assign") {
        return Ok(LangItem::BitXorAssign);
    }
    if same_text(name, "bit_and_assign") {
        return Ok(LangItem::BitAndAssign);
    }
    if same_text(name, "bit_or_assign") {
        return Ok(LangItem::BitOrAssign);
    }
    if same_text(name, "shl_assign") {
        return Ok(LangItem::ShlAssign);
    }
    if same_text(name, "shr_assign") {
        return Ok(LangItem::ShrAssign);
    }
    if same_text(name, "index") {
        return Ok(LangItem::Index);
    }
    if same_text(name, "index_mut") {
        return Ok(LangItem::IndexMut);
    }
    if same_text(name, "partial_eq") {
        return Ok(LangItem::PartialEq);
    }
    if same_text(name, "partial_ord") {
        return Ok(LangItem::PartialOrd);
    }
    if same_text(name, "neg") {
        return Ok(LangItem::Neg);
    }
    if same_text(name, "not") {
        return Ok(LangItem::Not);
    }
    if same_text(name, "manually_drop") {
        return Ok(LangItem::ManuallyDrop);
    }
    if same_text(name, "maybe_uninit") {
        return Ok(LangItem::MaybeUninit);
    }
    if same_text(name, "unsafe_cell") {
        return Ok(LangItem::UnsafeCell);
    }
    if same_text(name, "phantom_data") {
        return Ok(LangItem::PhantomData);
    }
    if same_text(name, "ordering") {
        return Ok(LangItem::Ordering);
    }
    if same_text(name, "resume") {
        return Ok(LangItem::ResumeTy);
    }
    if same_text(name, "context") {
        return Ok(LangItem::Context);
    }
    if same_text(name, "get_context") {
        return Ok(LangItem::GetContext);
    }
    if same_text(name, "async_drop_in_place") {
        return Ok(LangItem::AsyncDropInPlace);
    }
    if same_text(name, "drop_in_place") {
        return Ok(LangItem::DropInPlace);
    }
    if same_text(name, "layout") {
        return Ok(LangItem::AllocLayout);
    }
    if same_text(name, "unique") {
        return Ok(LangItem::Unique);
    }
    if same_text(name, "pin") {
        return Ok(LangItem::Pin);
    }
    if same_text(name, "pin_new_unchecked") {
        return Ok(LangItem::PinNewUnchecked);
    }
    if same_text(name, "option") {
        return Ok(LangItem::Option);
    }
    if same_text(name, "option_none") {
        return Ok(LangItem::OptionNone);
    }
    if same_text(name, "option_some") {
        return Ok(LangItem::OptionSome);
    }
    if same_text(name, "result") {
        return Ok(LangItem::Result);
    }
    if same_text(name, "result_ok") {
        return Ok(LangItem::ResultOk);
    }
    if same_text(name, "result_err") {
        return Ok(LangItem::ResultErr);
    }
    if same_text(name, "control_flow") {
        return Ok(LangItem::ControlFlow);
    }
    if same_text(name, "control_flow_break") {
        return Ok(LangItem::ControlFlowBreak);
    }
    if same_text(name, "control_flow_continue") {
        return Ok(LangItem::ControlFlowContinue);
    }
    if same_text(name, "poll") {
        return Ok(LangItem::Poll);
    }
    if same_text(name, "poll_ready") {
        return Ok(LangItem::PollReady);
    }
    if same_text(name, "poll_pending") {
        return Ok(LangItem::PollPending);
    }
    if same_text(name, "coroutine_state") {
        return Ok(LangItem::CoroutineState);
    }
    if same_text(name, "coroutine_trait") {
        return Ok(LangItem::CoroutineTrait);
    }
    if same_text(name, "coroutine_yield") {
        return Ok(LangItem::CoroutineYield);
    }
    if same_text(name, "coroutine_return") {
        return Ok(LangItem::CoroutineReturn);
    }
    if same_text(name, "coroutine_resume") {
        return Ok(LangItem::CoroutineResume);
    }
    if same_text(name, "slice_len_fn") {
        return Ok(LangItem::SliceLen);
    }
    if same_text(name, "contract_build_check_ensures") {
        return Ok(LangItem::ContractBuildCheckEnsures);
    }
    if same_text(name, "contract_check_requires") {
        return Ok(LangItem::ContractCheckRequires);
    }
    if same_text(name, "contract_check_ensures") {
        return Ok(LangItem::ContractCheckEnsures);
    }
    if same_text(name, "format_arguments") {
        return Ok(LangItem::FormatArguments);
    }
    if same_text(name, "format_argument") {
        return Ok(LangItem::FormatArgument);
    }
    if same_text(name, "format_unsafe_arg") {
        return Ok(LangItem::FormatUnsafeArgument);
    }
    if same_text(name, "format_placeholder") {
        return Ok(LangItem::FormatPlaceholder);
    }
    if same_text(name, "format_count") {
        return Ok(LangItem::FormatCount);
    }
    if same_text(name, "panic_location") {
        return Ok(LangItem::PanicLocation);
    }
    if same_text(name, "panic_info") {
        return Ok(LangItem::PanicInfo);
    }
    if same_text(name, "panic") {
        return Ok(LangItem::Panic);
    }
    if same_text(name, "panic_impl") {
        return Ok(LangItem::PanicImpl);
    }
    if same_text(name, "panic_fmt") {
        return Ok(LangItem::PanicFmt);
    }
    if same_text(name, "panic_nounwind") {
        return Ok(LangItem::PanicNounwind);
    }
    if same_text(name, "panic_bounds_check") {
        return Ok(LangItem::PanicBoundsCheck);
    }
    if same_text(name, "panic_misaligned_pointer_dereference") {
        return Ok(LangItem::PanicMisalignedPointerDereference);
    }
    if same_text(name, "panic_null_pointer_dereference") {
        return Ok(LangItem::PanicNullPointerDereference);
    }
    if same_text(name, "panic_cannot_unwind") {
        return Ok(LangItem::PanicCannotUnwind);
    }
    if same_text(name, "panic_in_cleanup") {
        return Ok(LangItem::PanicInCleanup);
    }
    if same_text(name, "const_panic_fmt") {
        return Ok(LangItem::ConstPanicFmt);
    }
    if same_text(name, "cstr") {
        return Ok(LangItem::CStr);
    }
    if same_text(name, "cvoid") {
        return Ok(LangItem::CVoid);
    }
    proof {
        assert forall|li: LangItem| #[trigger] li.spec_name()@ != name@ by {
            match li {
                LangItem::Sized => {},
                LangItem::Unsize => {},
                LangItem::CoerceUnsized => {},
                LangItem::ConstParamTy => {},
                LangItem::UnsizedConstParamTy => {},
                LangItem::TupleTrait => {},
                LangItem::StructuralPartialEq => {},
                LangItem::DiscriminantKind => {},
                LangItem::DiscriminantType => {},
                LangItem::Send => {},
                LangItem::Sync => {},
                LangItem::Freeze => {},
                LangItem::Unpin => {},
                LangItem::Copy => {},
                LangItem::Clone => {},
                LangItem::CloneFn => {},
                LangItem::Drop => {},
                LangItem::Destruct => {},
                LangItem::BikeshedGuaranteedNoDrop => {},
                LangItem::AsyncDrop => {},
                LangItem::FutureTrait => {},
                LangItem::FutureOutput => {},
                LangItem::FuturePoll => {},
                LangItem::IntoFutureTrait => {},
                LangItem::IntoFutureFn => {},
                LangItem::IntoIterTrait => {},
                LangItem::IntoIterFn => {},
                LangItem::FusedIterator => {},
                LangItem::Iterator => {},
                LangItem::IteratorItem => {},
                LangItem::IteratorNext => {},
                LangItem::TransmuteTrait => {},
                LangItem::TransmuteAssumption => {},
                LangItem::Deref => {},
                LangItem::DerefMut => {},
                LangItem::DerefPure => {},
                LangItem::DerefTarget => {},
                LangItem::LegacyReceiver => {},
                LangItem::Receiver => {},
                LangItem::ReceiverTarget => {},
                LangItem::DispatchFromDyn => {},
                LangItem::DynMetadata => {},
                LangItem::PointeeTrait => {},
                LangItem::PointeeMetadata => {},
                LangItem::PointerLike => {},
                LangItem::CoercePointeeValidated => {},
                LangItem::FnPtrTrait => {},
                LangItem::FnPtrAddr => {},
                LangItem::AsyncFn => {},
                LangItem::AsyncFnMut => {},
                LangItem::AsyncFnCallRefFuture => {},
                LangItem::AsyncFnOnce => {},
                LangItem::AsyncFnCallOnceFuture => {},
                LangItem::AsyncFnOnceOutput => {},
                LangItem::AsyncFnKindHelper => {},
                LangItem::AsyncFnKindUpvars => {},
                LangItem::Fn => {},
                LangItem::FnMut => {},
                LangItem::FnOnce => {},
                LangItem::FnOnceOutput => {},
                LangItem::Try => {},
                LangItem::TryBranchFn => {},
                LangItem::TryFromOutputFn => {},
                LangItem::FromResidual => {},
                LangItem::FromResidualFn => {},
                LangItem::FromYeet => {},
                LangItem::Add => {},
                LangItem::Sub => {},
                LangItem::Mul => {},
                LangItem::Div => {},
                LangItem::Rem => {},
                LangItem::BitXor => {},
                LangItem::BitAnd => {},
                LangItem::BitOr => {},
                LangItem::Shl => {},
                LangItem::Shr => {},
                LangItem::AddAssign => {},
                LangItem::SubAssign => {},
                LangItem::MulAssign => {},
                LangItem::DivAssign => {},
                LangItem::RemAssign => {},
                LangItem::BitXorAssign => {},
                LangItem::BitAndAssign => {},
                LangItem::BitOrAssign => {},
                LangItem::ShlAssign => {},
                LangItem::ShrAssign => {},
                LangItem::Index => {},
                LangItem::IndexMut => {},
                LangItem::PartialEq => {},
                LangItem::PartialOrd => {},
                LangItem::Neg => {},
                LangItem::Not => {},
                LangItem::ManuallyDrop => {},
                LangItem::MaybeUninit => {},
                LangItem::UnsafeCell => {},
                LangItem::PhantomData => {},
                LangItem::Ordering => {},
                LangItem::ResumeTy => {},
                LangItem::Context => {},
                LangItem::GetContext => {},
                LangItem::AsyncDropInPlace => {},
                LangItem::DropInPlace => {},
                LangItem::AllocLayout => {},
                LangItem::Unique => {},
                LangItem::Pin => {},
                LangItem::PinNewUnchecked => {},
                LangItem::Option => {},
                LangItem::OptionNone => {},
                LangItem::OptionSome => {},
                LangItem::Result => {},
                LangItem::ResultOk => {},
                LangItem::ResultErr => {},
                LangItem::ControlFlow => {},
                LangItem::ControlFlowBreak => {},
                LangItem::ControlFlowContinue => {},
                LangItem::Poll => {},
                LangItem::PollReady => {},
                LangItem::PollPending => {},
                LangItem::CoroutineState => {},
                LangItem::CoroutineTrait => {},
                LangItem::CoroutineYield => {},
                LangItem::CoroutineReturn => {},
                LangItem::CoroutineResume => {},
                LangItem::SliceLen => {},
                LangItem::ContractBuildCheckEnsures => {},
                LangItem::ContractCheckRequires => {},
                LangItem::ContractCheckEnsures => {},
                LangItem::FormatArguments => {},
                LangItem::FormatArgument => {},
                LangItem::FormatUnsafeArgument => {},
                LangItem::FormatPlaceholder => {},
                LangItem::FormatCount => {},
                LangItem::PanicLocation => {},
                LangItem::PanicInfo => {},
                LangItem::Panic => {},
                LangItem::PanicImpl => {},
                LangItem::PanicFmt => {},
                LangItem::PanicNounwind => {},
                LangItem::PanicBoundsCheck => {},
                LangItem::PanicMisalignedPointerDereference => {},
                LangItem::PanicNullPointerDereference => {},
                LangItem::PanicCannotUnwind => {},
                LangItem::PanicInCleanup => {},
                LangItem::ConstPanicFmt => {},
                LangItem::CStr => {},
                LangItem::CVoid => {},
            }
        }
    }
    Err(LangItemError::Unknown(String::from_str(name)))
}

} // verus!
