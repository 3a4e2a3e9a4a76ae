use vstd::prelude::*;
use vstd::string::*;
use crate::error::DecodeError;
use crate::parser::cp_info::{CpInfo, CpInfoView};
use crate::parser::record::models;
use crate::parser::attribute_info::attribute::bootstrap_method::{BootstrapMethod, BootstrapMethodView};

verus! {

/// The characters that stand between a member's name and its descriptor, and
/// between a class and its member.
pub open spec fn colon() -> Seq<char> {
    seq![':']
}

pub open spec fn dot() -> Seq<char> {
    seq!['.']
}

/// A class, by its name.
#[derive(Debug, PartialEq, Eq)]
pub struct Class {
    pub name: String,
}

impl Clone for Class {
    fn clone(&self) -> (r: Self)
        ensures
            r == *self,
    {
        Class { name: self.name.clone() }
    }
}

impl Class {
    /// The class's name.
    pub fn to_string(&self) -> (r: String)
        ensures
            r@ == self.name@,
    {
        self.name.clone()
    }
}

/// A member's name together with its descriptor.
#[derive(Debug, PartialEq, Eq)]
pub struct NameAndType {
    pub name: String,
    pub descriptor: String,
}

impl Clone for NameAndType {
    fn clone(&self) -> (r: Self)
        ensures
            r == *self,
    {
        NameAndType { name: self.name.clone(), descriptor: self.descriptor.clone() }
    }
}

impl NameAndType {
    /// The key under which member tables hold this member: name, a colon,
    /// descriptor.
    pub open spec fn key(&self) -> Seq<char> {
        self.name@ + colon() + self.descriptor@
    }

    /// The member's key as text.
    pub fn to_string(&self) -> (r: String)
        ensures
            r@ == self.key(),
    {
        let mut s = self.name.clone();
        proof {
            reveal_strlit(":");
        }
        s.append(":");
        assert(":"@ =~= colon());
        s.append(self.descriptor.as_str());
        s
    }
}

/// A text constant.
#[derive(Debug, Clone, PartialEq, Eq)]
pub struct JavaString {
    pub string: String,
}

impl JavaString {
    /// The text itself.
    pub fn to_string(&self) -> (r: String)
        ensures
            r@ == self.string@,
    {
        self.string.clone()
    }
}

/// A field of a class, named symbolically.
#[derive(Debug, PartialEq, Eq)]
pub struct Fieldref {
    pub class: Class,
    pub name_and_type: NameAndType,
}

impl Clone for Fieldref {
    fn clone(&self) -> (r: Self)
        ensures
            r == *self,
    {
        Fieldref { class: self.class.clone(), name_and_type: self.name_and_type.clone() }
    }
}

impl Fieldref {
    /// Class name, a dot, then the member's key.
    pub open spec fn full_name(&self) -> Seq<char> {
        self.class.name@ + dot() + self.name_and_type.key()
    }

    /// The field's full name as text.
    pub fn to_string(&self) -> (r: String)
        ensures
            r@ == self.full_name(),
    {
        let mut s = self.class.to_string();
        proof {
            reveal_strlit(".");
        }
        s.append(".");
        assert("."@ =~= dot());
        let key = self.name_and_type.to_string();
        s.append(key.as_str());
        s
    }
}

/// A method of a class, named symbolically.
#[derive(Debug, PartialEq, Eq)]
pub struct Methodref {
    pub class: Class,
    pub name_and_type: NameAndType,
}

impl Clone for Methodref {
    fn clone(&self) -> (r: Self)
        ensures
            r == *self,
    {
        Methodref { class: self.class.clone(), name_and_type: self.name_and_type.clone() }
    }
}

impl Methodref {
    /// Class name, a dot, then the member's key.
    pub open spec fn full_name(&self) -> Seq<char> {
        self.class.name@ + dot() + self.name_and_type.key()
    }

    /// The method's full name as text.
    pub fn to_string(&self) -> (r: String)
        ensures
            r@ == self.full_name(),
    {
        let mut s = self.class.to_string();
        proof {
            reveal_strlit(".");
        }
        s.append(".");
        assert("."@ =~= dot());
        let key = self.name_and_type.to_string();
        s.append(key.as_str());
        s
    }
}

/// A method of an interface, named symbolically.
#[derive(Debug, PartialEq, Eq)]
pub struct InterfaceMethodref {
    pub class: Class,
    pub name_and_type: NameAndType,
}

impl Clone for InterfaceMethodref {
    fn clone(&self) -> (r: Self)
        ensures
            r == *self,
    {
        InterfaceMethodref { class: self.class.clone(), name_and_type: self.name_and_type.clone() }
    }
}

/// A method handle. Nothing of it is kept.
#[derive(Debug, Clone, Copy, PartialEq, Eq)]
pub struct MethodHandle {}

/// A method type, by its descriptor.
#[derive(Debug, Clone, PartialEq, Eq)]
pub struct MethodType {
    pub descriptor: String,
}

/// A dynamically bound call site.
#[derive(Debug, Clone, PartialEq, Eq)]
pub struct InvokeDynamic {
    pub bootstrap_method_attr: BootstrapMethod,
    pub name_and_type: NameAndType,
}

/// A constant-pool entry with every index it held replaced by what the index
/// named. Floating-point constants are kept as their IEEE 754 bit patterns.
#[derive(Debug, Clone, PartialEq, Eq)]
pub enum ResolvedCpInfo {
    Class(Class),
    Fieldref(Fieldref),
    Methodref(Methodref),
    InterfaceMethodref(InterfaceMethodref),
    String(JavaString),
    Integer(i32),
    Float(u32),
    Long(i64),
    Double(u64),
    NameAndType(NameAndType),
    MethodHandle(MethodHandle),
    MethodType(MethodType),
    InvokeDynamic(InvokeDynamic),
    Utf8(String),
}


/// A member's name and descriptor as mathematical values.
pub struct NameAndTypeView {
    pub name: Seq<char>,
    pub descriptor: Seq<char>,
}

/// A field or method named symbolically, as a mathematical value.
pub struct MemberView {
    pub class: Seq<char>,
    pub name_and_type: NameAndTypeView,
}

/// A dynamically bound call site as a mathematical value.
pub struct InvokeDynamicView {
    pub bootstrap_method_attr: BootstrapMethodView,
    pub name_and_type: NameAndTypeView,
}

/// A resolved constant-pool entry as a mathematical value.
pub enum ResolvedCpInfoView {
    Class(Seq<char>),
    Fieldref(MemberView),
    Methodref(MemberView),
    InterfaceMethodref(MemberView),
    String(Seq<char>),
    Integer(i32),
    Float(u32),
    Long(i64),
    Double(u64),
    NameAndType(NameAndTypeView),
    MethodHandle,
    MethodType(Seq<char>),
    InvokeDynamic(InvokeDynamicView),
    Utf8(Seq<char>),
}

impl View for Class {
    type V = Seq<char>;

    open spec fn view(&self) -> Seq<char> {
        self.name@
    }
}

impl View for NameAndType {
    type V = NameAndTypeView;

    open spec fn view(&self) -> NameAndTypeView {
        NameAndTypeView { name: self.name@, descriptor: self.descriptor@ }
    }
}

impl View for Fieldref {
    type V = MemberView;

    open spec fn view(&self) -> MemberView {
        MemberView { class: self.class@, name_and_type: self.name_and_type@ }
    }
}

impl View for Methodref {
    type V = MemberView;

    open spec fn view(&self) -> MemberView {
        MemberView { class: self.class@, name_and_type: self.name_and_type@ }
    }
}

impl View for InterfaceMethodref {
    type V = MemberView;

    open spec fn view(&self) -> MemberView {
        MemberView { class: self.class@, name_and_type: self.name_and_type@ }
    }
}

impl View for InvokeDynamic {
    type V = InvokeDynamicView;

    open spec fn view(&self) -> InvokeDynamicView {
        InvokeDynamicView {
            bootstrap_method_attr: self.bootstrap_method_attr@,
            name_and_type: self.name_and_type@,
        }
    }
}

impl View for ResolvedCpInfo {
    type V = ResolvedCpInfoView;

    open spec fn view(&self) -> ResolvedCpInfoView {
        match self {
            ResolvedCpInfo::Class(c) => ResolvedCpInfoView::Class(c@),
            ResolvedCpInfo::Fieldref(f) => ResolvedCpInfoView::Fieldref(f@),
            ResolvedCpInfo::Methodref(m) => ResolvedCpInfoView::Methodref(m@),
            ResolvedCpInfo::InterfaceMethodref(m) => ResolvedCpInfoView::InterfaceMethodref(m@),
            ResolvedCpInfo::String(s) => ResolvedCpInfoView::String(s.string@),
            ResolvedCpInfo::Integer(v) => ResolvedCpInfoView::Integer(*v),
            ResolvedCpInfo::Float(v) => ResolvedCpInfoView::Float(*v),
            ResolvedCpInfo::Long(v) => ResolvedCpInfoView::Long(*v),
            ResolvedCpInfo::Double(v) => ResolvedCpInfoView::Double(*v),
            ResolvedCpInfo::NameAndType(n) => ResolvedCpInfoView::NameAndType(n@),
            ResolvedCpInfo::MethodHandle(_) => ResolvedCpInfoView::MethodHandle,
            ResolvedCpInfo::MethodType(t) => ResolvedCpInfoView::MethodType(t.descriptor@),
            ResolvedCpInfo::InvokeDynamic(d) => ResolvedCpInfoView::InvokeDynamic(d@),
            ResolvedCpInfo::Utf8(s) => ResolvedCpInfoView::Utf8(s@),
        }
    }
}

/// The constant-pool entry that a one-based index names.
pub open spec fn entry(pool: Seq<ResolvedCpInfoView>, index: u16) -> Option<ResolvedCpInfoView> {
    if 1 <= index <= pool.len() {
        Some(pool[index - 1])
    } else {
        None
    }
}

/// The text that a one-based index names, if the entry there is text.
pub open spec fn text_entry(pool: Seq<ResolvedCpInfoView>, index: u16) -> Option<Seq<char>> {
    match entry(pool, index) {
        Some(ResolvedCpInfoView::Utf8(text)) => Some(text),
        _ => None,
    }
}

/// The constant-pool entry that a one-based index names.
pub fn lookup(pool: &Vec<ResolvedCpInfo>, index: u16) -> (r: Option<&ResolvedCpInfo>)
    ensures
        match r {
            Some(e) => entry(models(pool@), index) == Some(e@),
            None => entry(models(pool@), index) is None,
        },
{
    if index == 0 || index as usize > pool.len() {
        None
    } else {
        Some(&pool[index as usize - 1])
    }
}

/// The text that a one-based index names, if the entry there is text.
pub fn lookup_text(pool: &Vec<ResolvedCpInfo>, index: u16) -> (r: Option<&String>)
    ensures
        match r {
            Some(text) => text_entry(models(pool@), index) == Some(text@),
            None => text_entry(models(pool@), index) is None,
        },
{
    match lookup(pool, index) {
        Some(ResolvedCpInfo::Utf8(text)) => Some(text),
        _ => None,
    }
}


/// The unresolved entry that a one-based index names.
pub open spec fn raw_entry(pool: Seq<CpInfoView>, index: u16) -> Option<CpInfoView> {
    if 1 <= index <= pool.len() {
        Some(pool[index - 1])
    } else {
        None
    }
}

/// The text at an index, if the entry there is text.
pub open spec fn raw_text(pool: Seq<CpInfoView>, index: u16) -> Option<Seq<char>> {
    match raw_entry(pool, index) {
        Some(CpInfoView::Utf8 { bytes }) => Some(bytes),
        _ => None,
    }
}

/// The name of the class at an index, if the entry there is a class whose
/// name is text.
pub open spec fn raw_class(pool: Seq<CpInfoView>, index: u16) -> Option<Seq<char>> {
    match raw_entry(pool, index) {
        Some(CpInfoView::Class { name_index }) => raw_text(pool, name_index),
        _ => None,
    }
}

/// The name and descriptor at an index, if the entry there is a name and
/// type whose parts are text.
pub open spec fn raw_name_and_type(pool: Seq<CpInfoView>, index: u16) -> Option<NameAndTypeView> {
    match raw_entry(pool, index) {
        Some(CpInfoView::NameAndType { name_index, descriptor_index }) => match raw_text(
            pool,
            name_index,
        ) {
            None => None,
            Some(name) => match raw_text(pool, descriptor_index) {
                None => None,
                Some(descriptor) => Some(NameAndTypeView { name, descriptor }),
            },
        },
        _ => None,
    }
}

/// The member that a class index and a name-and-type index name together.
pub open spec fn raw_member(pool: Seq<CpInfoView>, class_index: u16, name_and_type_index: u16) -> Option<
    MemberView,
> {
    match raw_class(pool, class_index) {
        None => None,
        Some(class) => match raw_name_and_type(pool, name_and_type_index) {
            None => None,
            Some(name_and_type) => Some(MemberView { class, name_and_type }),
        },
    }
}

/// An `Option` as a result: nothing there is a bad constant index.
pub open spec fn found<T>(o: Option<T>) -> Result<T, DecodeError> {
    match o {
        Some(v) => Ok(v),
        None => Err(DecodeError::BadConstantIndex),
    }
}

/// The entry `e` with every index replaced by what it names in `pool`. An
/// index that names nothing, or an entry of the wrong kind, is an error;
/// method handles, method types and dynamic call sites are not supported.
pub open spec fn resolve(e: CpInfoView, pool: Seq<CpInfoView>) -> Result<
    ResolvedCpInfoView,
    DecodeError,
> {
    match e {
        CpInfoView::Class { name_index } => match raw_text(pool, name_index) {
            None => Err(DecodeError::BadConstantIndex),
            Some(name) => Ok(ResolvedCpInfoView::Class(name)),
        },
        CpInfoView::Fieldref { class_index, name_and_type_index } => match raw_member(
            pool,
            class_index,
            name_and_type_index,
        ) {
            None => Err(DecodeError::BadConstantIndex),
            Some(m) => Ok(ResolvedCpInfoView::Fieldref(m)),
        },
        CpInfoView::Methodref { class_index, name_and_type_index } => match raw_member(
            pool,
            class_index,
            name_and_type_index,
        ) {
            None => Err(DecodeError::BadConstantIndex),
            Some(m) => Ok(ResolvedCpInfoView::Methodref(m)),
        },
        CpInfoView::InterfaceMethodref { class_index, name_and_type_index } => match raw_member(
            pool,
            class_index,
            name_and_type_index,
        ) {
            None => Err(DecodeError::BadConstantIndex),
            Some(m) => Ok(ResolvedCpInfoView::InterfaceMethodref(m)),
        },
        CpInfoView::String { string_index } => match raw_text(pool, string_index) {
            None => Err(DecodeError::BadConstantIndex),
            Some(text) => Ok(ResolvedCpInfoView::String(text)),
        },
        CpInfoView::Integer { value } => Ok(ResolvedCpInfoView::Integer(value)),
        CpInfoView::Float { value } => Ok(ResolvedCpInfoView::Float(value)),
        CpInfoView::Long { value } => Ok(ResolvedCpInfoView::Long(value)),
        CpInfoView::Double { value } => Ok(ResolvedCpInfoView::Double(value)),
        CpInfoView::NameAndType { name_index, descriptor_index } => match (
            raw_text(pool, name_index),
            raw_text(pool, descriptor_index),
        ) {
            (Some(name), Some(descriptor)) => Ok(
                ResolvedCpInfoView::NameAndType(NameAndTypeView { name, descriptor }),
            ),
            _ => Err(DecodeError::BadConstantIndex),
        },
        CpInfoView::Utf8 { bytes } => Ok(ResolvedCpInfoView::Utf8(bytes)),
        CpInfoView::MethodHandle { .. } => Err(DecodeError::Unsupported),
        CpInfoView::MethodType { .. } => Err(DecodeError::Unsupported),
        CpInfoView::InvokeDynamic { .. } => Err(DecodeError::Unsupported),
    }
}

/// The first `k` entries of `pool`, resolved. The first entry that cannot be
/// resolved gives the error.
pub open spec fn resolve_prefix(pool: Seq<CpInfoView>, k: nat) -> Result<
    Seq<ResolvedCpInfoView>,
    DecodeError,
>
    decreases k,
{
    if k == 0 {
        Ok(Seq::empty())
    } else {
        match resolve_prefix(pool, (k - 1) as nat) {
            Err(e) => Err(e),
            Ok(front) => match resolve(pool[k - 1], pool) {
                Err(e) => Err(e),
                Ok(last) => Ok(front.push(last)),
            },
        }
    }
}

/// Every entry of `pool`, resolved.
pub open spec fn resolve_all(pool: Seq<CpInfoView>) -> Result<Seq<ResolvedCpInfoView>, DecodeError> {
    resolve_prefix(pool, pool.len())
}

/// Once a prefix of the pool fails to resolve, so does every longer one,
/// with the same error.
pub proof fn lemma_resolve_tail(pool: Seq<CpInfoView>, k: nat, n: nat)
    requires
        k <= n,
        resolve_prefix(pool, k) is Err,
    ensures
        resolve_prefix(pool, n) == resolve_prefix(pool, k),
    decreases n - k,
{
    if k < n {
        lemma_resolve_tail(pool, k, (n - 1) as nat);
    }
}

/// The class of a resolved entry that refers to a field, a method or an
/// interface method.
pub open spec fn referred_class(e: ResolvedCpInfoView) -> Option<Seq<char>> {
    match e {
        ResolvedCpInfoView::Fieldref(m) => Some(m.class),
        ResolvedCpInfoView::Methodref(m) => Some(m.class),
        ResolvedCpInfoView::InterfaceMethodref(m) => Some(m.class),
        _ => None,
    }
}

/// The classes that the first `k` entries of a resolved pool refer to: for
/// each reference to a field, a method or an interface method, in order, the
/// name of its class.
pub open spec fn dependencies_prefix(pool: Seq<ResolvedCpInfoView>, k: nat) -> Seq<Seq<char>>
    decreases k,
{
    if k == 0 {
        Seq::empty()
    } else {
        match referred_class(pool[k - 1]) {
            Some(class) => dependencies_prefix(pool, (k - 1) as nat).push(class),
            None => dependencies_prefix(pool, (k - 1) as nat),
        }
    }
}

/// The classes that a resolved pool refers to.
pub open spec fn dependencies_of(pool: Seq<ResolvedCpInfoView>) -> Seq<Seq<char>> {
    dependencies_prefix(pool, pool.len())
}

/// The text at an index of an unresolved pool.
fn get_text(pool: &Vec<CpInfo>, index: u16) -> (r: Option<String>)
    ensures
        match r {
            Some(text) => raw_text(models(pool@), index) == Some(text@),
            None => raw_text(models(pool@), index) is None,
        },
{
    if index == 0 || index as usize > pool.len() {
        return None;
    }
    match &pool[index as usize - 1] {
        CpInfo::Utf8 { bytes } => Some(bytes.clone()),
        _ => None,
    }
}

/// The name of the class at an index of an unresolved pool.
fn get_class(pool: &Vec<CpInfo>, index: u16) -> (r: Option<Class>)
    ensures
        match r {
            Some(class) => raw_class(models(pool@), index) == Some(class@),
            None => raw_class(models(pool@), index) is None,
        },
{
    if index == 0 || index as usize > pool.len() {
        return None;
    }
    match &pool[index as usize - 1] {
        CpInfo::Class { name_index } => match get_text(pool, *name_index) {
            Some(name) => Some(Class { name }),
            None => None,
        },
        _ => None,
    }
}

/// The name and descriptor at an index of an unresolved pool.
fn get_name_and_type(pool: &Vec<CpInfo>, index: u16) -> (r: Option<NameAndType>)
    ensures
        match r {
            Some(names) => raw_name_and_type(models(pool@), index) == Some(names@),
            None => raw_name_and_type(models(pool@), index) is None,
        },
{
    if index == 0 || index as usize > pool.len() {
        return None;
    }
    match &pool[index as usize - 1] {
        CpInfo::NameAndType { name_index, descriptor_index } => {
            let name = match get_text(pool, *name_index) {
                Some(name) => name,
                None => { return None; },
            };
            let descriptor = match get_text(pool, *descriptor_index) {
                Some(descriptor) => descriptor,
                None => { return None; },
            };
            Some(NameAndType { name, descriptor })
        },
        _ => None,
    }
}

/// The class and the name and type that two indices name together.
fn get_member(pool: &Vec<CpInfo>, class_index: u16, name_and_type_index: u16) -> (r: Option<
    (Class, NameAndType),
>)
    ensures
        match r {
            Some((class, name_and_type)) => raw_member(
                models(pool@),
                class_index,
                name_and_type_index,
            ) == Some(MemberView { class: class@, name_and_type: name_and_type@ }),
            None => raw_member(models(pool@), class_index, name_and_type_index) is None,
        },
{
    let class = match get_class(pool, class_index) {
        Some(class) => class,
        None => { return None; },
    };
    let name_and_type = match get_name_and_type(pool, name_and_type_index) {
        Some(names) => names,
        None => { return None; },
    };
    Some((class, name_and_type))
}

impl ResolvedCpInfo {
    /// Resolves one entry against the pool it comes from.
    pub fn from(cpinfo: &CpInfo, constant_pool: &Vec<CpInfo>) -> (r: Result<Self, DecodeError>)
        ensures
            match r {
                Ok(resolved) => resolve(cpinfo@, models(constant_pool@)) == Ok::<
                    ResolvedCpInfoView,
                    DecodeError,
                >(resolved@),
                Err(e) => resolve(cpinfo@, models(constant_pool@)) == Err::<
                    ResolvedCpInfoView,
                    DecodeError,
                >(e),
            },
    {
        match cpinfo {
            CpInfo::Class { name_index } => match get_text(constant_pool, *name_index) {
                None => Err(DecodeError::BadConstantIndex),
                Some(name) => Ok(ResolvedCpInfo::Class(Class { name })),
            },
            CpInfo::Fieldref { class_index, name_and_type_index } => match get_member(
                constant_pool,
                *class_index,
                *name_and_type_index,
            ) {
                None => Err(DecodeError::BadConstantIndex),
                Some((class, name_and_type)) => Ok(
                    ResolvedCpInfo::Fieldref(Fieldref { class, name_and_type }),
                ),
            },
            CpInfo::Methodref { class_index, name_and_type_index } => match get_member(
                constant_pool,
                *class_index,
                *name_and_type_index,
            ) {
                None => Err(DecodeError::BadConstantIndex),
                Some((class, name_and_type)) => Ok(
                    ResolvedCpInfo::Methodref(Methodref { class, name_and_type }),
                ),
            },
            CpInfo::InterfaceMethodref { class_index, name_and_type_index } => match get_member(
                constant_pool,
                *class_index,
                *name_and_type_index,
            ) {
                None => Err(DecodeError::BadConstantIndex),
                Some((class, name_and_type)) => Ok(
                    ResolvedCpInfo::InterfaceMethodref(InterfaceMethodref { class, name_and_type }),
                ),
            },
            CpInfo::String { string_index } => match get_text(constant_pool, *string_index) {
                None => Err(DecodeError::BadConstantIndex),
                Some(string) => Ok(ResolvedCpInfo::String(JavaString { string })),
            },
            CpInfo::Integer { value } => Ok(ResolvedCpInfo::Integer(*value)),
            CpInfo::Float { value } => Ok(ResolvedCpInfo::Float(*value)),
            CpInfo::Long { value } => Ok(ResolvedCpInfo::Long(*value)),
            CpInfo::Double { value } => Ok(ResolvedCpInfo::Double(*value)),
            CpInfo::NameAndType { name_index, descriptor_index } => {
                let name = get_text(constant_pool, *name_index);
                let descriptor = get_text(constant_pool, *descriptor_index);
                match (name, descriptor) {
                    (Some(name), Some(descriptor)) => Ok(
                        ResolvedCpInfo::NameAndType(NameAndType { name, descriptor }),
                    ),
                    _ => Err(DecodeError::BadConstantIndex),
                }
            },
            CpInfo::Utf8 { bytes } => Ok(ResolvedCpInfo::Utf8(bytes.clone())),
            CpInfo::MethodHandle { .. } => Err(DecodeError::Unsupported),
            CpInfo::MethodType { .. } => Err(DecodeError::Unsupported),
            CpInfo::InvokeDynamic { .. } => Err(DecodeError::Unsupported),
        }
    }
}

/// Resolves every entry of a pool, in order.
pub fn resolve_pool(constant_pool: &Vec<CpInfo>) -> (r: Result<Vec<ResolvedCpInfo>, DecodeError>)
    ensures
        match r {
            Ok(resolved) => resolve_all(models(constant_pool@)) == Ok::<
                Seq<ResolvedCpInfoView>,
                DecodeError,
            >(models(resolved@)),
            Err(e) => resolve_all(models(constant_pool@)) == Err::<Seq<ResolvedCpInfoView>, DecodeError>(
                e,
            ),
        },
{
    let ghost pool = models(constant_pool@);
    let mut resolved: Vec<ResolvedCpInfo> = Vec::new();
    let mut k: usize = 0;
    assert(models(resolved@) =~= Seq::<ResolvedCpInfoView>::empty());
    while k < constant_pool.len()
        invariant
            k <= constant_pool@.len(),
            pool == models(constant_pool@),
            resolve_prefix(pool, k as nat) == Ok::<Seq<ResolvedCpInfoView>, DecodeError>(
                models(resolved@),
            ),
        decreases constant_pool@.len() - k,
    {
        let ghost before = models(resolved@);
        let item = match ResolvedCpInfo::from(&constant_pool[k], constant_pool) {
            Err(e) => {
                proof {
                    assert(resolve_prefix(pool, (k + 1) as nat) is Err);
                    lemma_resolve_tail(pool, (k + 1) as nat, pool.len());
                }
                return Err(e);
            },
            Ok(item) => item,
        };
        let ghost m = item@;
        resolved.push(item);
        assert(models(resolved@) =~= before.push(m));
        k += 1;
    }
    Ok(resolved)
}

/// Lists the classes that a resolved pool refers to.
pub fn dependencies(resolved: &Vec<ResolvedCpInfo>) -> (r: Vec<String>)
    ensures
        models(r@) == dependencies_of(models(resolved@)),
{
    let ghost pool = models(resolved@);
    let mut out: Vec<String> = Vec::new();
    let mut k: usize = 0;
    assert(models(out@) =~= Seq::<Seq<char>>::empty());
    while k < resolved.len()
        invariant
            k <= resolved@.len(),
            pool == models(resolved@),
            models(out@) == dependencies_prefix(pool, k as nat),
        decreases resolved@.len() - k,
    {
        let ghost before = models(out@);
        match &resolved[k] {
            ResolvedCpInfo::Fieldref(f) => {
                out.push(f.class.name.clone());
                assert(models(out@) =~= before.push(f.class.name@));
            },
            ResolvedCpInfo::Methodref(m) => {
                out.push(m.class.name.clone());
                assert(models(out@) =~= before.push(m.class.name@));
            },
            ResolvedCpInfo::InterfaceMethodref(m) => {
                out.push(m.class.name.clone());
                assert(models(out@) =~= before.push(m.class.name@));
            },
            _ => {},
        }
        k += 1;
    }
    out
}

} // verus!
