use vstd::prelude::*;

verus! {

/// Who currently owns a piece of data, and whether it may be touched.
#[derive(Copy, Clone, Debug, PartialEq, Eq, Structural)]
pub enum GcInfo {
    Owned,
    SharedWithHost,
    MutSharedWithHost,
    MovedToHost,
    Dropped,
    Null,
    OnStack,
}

impl GcInfo {
    /// The byte that encodes this state.
    pub open spec fn spec_code(self) -> u8 {
        match self {
            GcInfo::Owned => 0,
            GcInfo::SharedWithHost => 1,
            GcInfo::MutSharedWithHost => 2,
            GcInfo::MovedToHost => 3,
            GcInfo::Dropped => 4,
            GcInfo::Null => 5,
            GcInfo::OnStack => 6,
        }
    }

    /// The states that a container may hold in its state field; `Null` and
    /// `OnStack` are only ever reported by the value layer.
    pub open spec fn storable(self) -> bool {
        !(self is Null) && !(self is OnStack)
    }

    /// Encodes the state as one byte.
    pub fn to_u8(self) -> (r: u8)
        ensures
            r == self.spec_code(),
    {
        match self {
            GcInfo::Owned => 0,
            GcInfo::SharedWithHost => 1,
            GcInfo::MutSharedWithHost => 2,
            GcInfo::MovedToHost => 3,
            GcInfo::Dropped => 4,
            GcInfo::Null => 5,
            GcInfo::OnStack => 6,
        }
    }

    /// Decodes a state byte. A byte out of range can only come from a
    /// corrupted container, so it is excluded by the precondition.
    pub fn from_u8(src: u8) -> (r: GcInfo)
        requires
            src < 7,
        ensures
            r.spec_code() == src,
    {
        match src {
            0 => GcInfo::Owned,
            1 => GcInfo::SharedWithHost,
            2 => GcInfo::MutSharedWithHost,
            3 => GcInfo::MovedToHost,
            4 => GcInfo::Dropped,
            5 => GcInfo::Null,
            _ => GcInfo::OnStack,
        }
    }
}

/// Decoding the encoding of a state gives the state back, and every byte
/// below seven encodes exactly one state.
pub proof fn lemma_gc_info_code_bijective(g: GcInfo, h: GcInfo)
    ensures
        g.spec_code() < 7,
        g.spec_code() == h.spec_code() <==> g == h,
{
}

/// Scalar subtype discriminant of a tagged value. `AnyType` stands for "any
/// dynamically typed value" and is used for identity queries only.
#[derive(Copy, Clone, Debug, PartialEq, Eq, Structural)]
pub enum ValueType {
    Int,
    Float,
    Char,
    Byte,
    Bool,
    AnyType,
}

impl ValueType {
    /// The three-bit discriminant of this subtype.
    pub open spec fn spec_code(self) -> u8 {
        match self {
            ValueType::Int => 1,
            ValueType::Float => 2,
            ValueType::Char => 3,
            ValueType::Byte => 4,
            ValueType::Bool => 5,
            ValueType::AnyType => 6,
        }
    }

    pub fn to_u8(self) -> (r: u8)
        ensures
            r == self.spec_code(),
    {
        match self {
            ValueType::Int => 1,
            ValueType::Float => 2,
            ValueType::Char => 3,
            ValueType::Byte => 4,
            ValueType::Bool => 5,
            ValueType::AnyType => 6,
        }
    }

    /// Decodes a discriminant; any other byte is an internal defect.
    pub fn from_u8(src: u8) -> (r: ValueType)
        requires
            1 <= src <= 6,
        ensures
            r.spec_code() == src,
    {
        match src {
            1 => ValueType::Int,
            2 => ValueType::Float,
            3 => ValueType::Char,
            4 => ValueType::Byte,
            5 => ValueType::Bool,
            _ => ValueType::AnyType,
        }
    }

    /// The identity token of values of this subtype.
    pub open spec fn spec_ident(self) -> TypeIdent {
        match self {
            ValueType::Int => TypeIdent::Int,
            ValueType::Float => TypeIdent::Float,
            ValueType::Char => TypeIdent::Char,
            ValueType::Byte => TypeIdent::Byte,
            ValueType::Bool => TypeIdent::Bool,
            ValueType::AnyType => TypeIdent::DynAny,
        }
    }

    pub fn ident(self) -> (r: TypeIdent)
        ensures
            r == self.spec_ident(),
    {
        match self {
            ValueType::Int => TypeIdent::Int,
            ValueType::Float => TypeIdent::Float,
            ValueType::Char => TypeIdent::Char,
            ValueType::Byte => TypeIdent::Byte,
            ValueType::Bool => TypeIdent::Bool,
            ValueType::AnyType => TypeIdent::DynAny,
        }
    }
}

/// An opaque type identity, comparable for equality across containers: one
/// token per scalar type, a marker for "any dynamic value", and tokens that
/// the embedding program assigns to its own types.
#[derive(Copy, Clone, Debug, PartialEq, Eq, Structural)]
pub enum TypeIdent {
    Int,
    Float,
    Char,
    Byte,
    Bool,
    DynAny,
    Custom(u64),
}

/// A type-check descriptor for a declared identity, handed to the external
/// comparator that decides compatibility.
#[derive(Copy, Clone, Debug, PartialEq, Eq, Structural)]
pub struct TypeCheckInfo {
    pub ident: TypeIdent,
}

/// Where a container's data lives.
pub enum WrapperData<'a, Ta> {
    /// Owned inline; empty once the value has been moved out.
    Value(Option<Ta>),
    /// Borrowed read-only from the host.
    Ptr(&'a Ta),
    /// Borrowed mutably and exclusively from the host.
    MutPtr(&'a mut Ta),
}

/// A container that holds a value inline, or refers to a value that the host
/// owns, together with its ownership state and its declared type identity.
/// The declared identity may differ from the storage type: a container that
/// borrows a `T` reports the identity of `T`.
///
/// The state is written only through `&mut self`, so a write made on one
/// thread is seen by any later read on another thread that is ordered after
/// it; no lock or atomic is needed for that.
///
/// A container is consumed once: `move_out` hands the owned value to the
/// host and leaves the state `MovedToHost`; `destroy` drops the owned value
/// in place and leaves it `Dropped`. Host data is never dropped.
pub struct Wrapper<'a, Ta> {
    data: WrapperData<'a, Ta>,
    gc_info: GcInfo,
    ident: TypeIdent,
}

/// Where the live data of a container is.
pub enum Location<'b, Ta> {
    /// The container's own inline slot.
    Inline(&'b Ta),
    /// The address that the host supplied.
    Host(&'b Ta),
}

impl<'b, Ta> Location<'b, Ta> {
    pub open spec fn spec_target(self) -> Ta {
        match self {
            Location::Inline(r) => *r,
            Location::Host(r) => *r,
        }
    }
}

impl<'a, Ta> Wrapper<'a, Ta> {
    /// The state field.
    pub closed spec fn spec_gc_info(&self) -> GcInfo {
        self.gc_info
    }

    /// The declared identity.
    pub closed spec fn spec_ident(&self) -> TypeIdent {
        self.ident
    }

    /// The container holds its data inline (whether or not it is still there).
    pub closed spec fn spec_is_inline(&self) -> bool {
        self.data is Value
    }

    /// The inline slot still holds a value.
    pub closed spec fn spec_has_value(&self) -> bool {
        self.data is Value && self.data->Value_0 is Some
    }

    /// The container refers to host data, read-only.
    pub closed spec fn spec_is_shared(&self) -> bool {
        self.data is Ptr
    }

    /// The container refers to host data, mutably.
    pub closed spec fn spec_is_mut_shared(&self) -> bool {
        self.data is MutPtr
    }

    /// The data that the container holds or refers to.
    pub closed spec fn spec_target(&self) -> Ta {
        match self.data {
            WrapperData::Value(v) => v->Some_0,
            WrapperData::Ptr(r) => *r,
            WrapperData::MutPtr(r) => *r,
        }
    }

    /// The state and the storage agree, so the data may be reached: an owned
    /// container that still holds its value, or a shared one.
    pub open spec fn spec_addressable(&self) -> bool {
        ||| self.spec_gc_info() is Owned && self.spec_has_value()
        ||| self.spec_gc_info() is SharedWithHost && self.spec_is_shared()
        ||| self.spec_gc_info() is MutSharedWithHost && self.spec_is_mut_shared()
    }

    /// Moving out is allowed: the container owns a value that is still there.
    pub open spec fn spec_can_move_out(&self) -> bool {
        self.spec_gc_info() is Owned && self.spec_has_value()
    }

    /// Stores `data` inline; the state is `Owned`.
    pub fn owned(data: Ta, ident: TypeIdent) -> (r: Self)
        ensures
            r.spec_gc_info() == GcInfo::Owned,
            r.spec_ident() == ident,
            r.spec_has_value(),
            r.spec_target() == data,
    {
        Wrapper { data: WrapperData::Value(Some(data)), gc_info: GcInfo::Owned, ident }
    }

    /// Refers to host data read-only; the state is `SharedWithHost`.
    pub fn shared(data: &'a Ta, ident: TypeIdent) -> (r: Self)
        ensures
            r.spec_gc_info() == GcInfo::SharedWithHost,
            r.spec_ident() == ident,
            r.spec_is_shared(),
            r.spec_target() == *data,
    {
        Wrapper { data: WrapperData::Ptr(data), gc_info: GcInfo::SharedWithHost, ident }
    }

    /// Refers to host data mutably; the state is `MutSharedWithHost`.
    pub fn mut_shared(data: &'a mut Ta, ident: TypeIdent) -> (r: Self)
        ensures
            r.spec_gc_info() == GcInfo::MutSharedWithHost,
            r.spec_ident() == ident,
            r.spec_is_mut_shared(),
            r.spec_target() == *old(data),
    {
        Wrapper { data: WrapperData::MutPtr(data), gc_info: GcInfo::MutSharedWithHost, ident }
    }

    /// The inline slot.
    pub fn borrow_value(&self) -> (r: &Ta)
        requires
            self.spec_has_value(),
        ensures
            *r == self.spec_target(),
    {
        match &self.data {
            WrapperData::Value(Some(v)) => v,
            _ => unreached(),
        }
    }

    /// The host address that the container refers to.
    pub fn borrow_ptr(&self) -> (r: &Ta)
        requires
            self.spec_is_shared() || self.spec_is_mut_shared(),
        ensures
            *r == self.spec_target(),
    {
        match &self.data {
            WrapperData::Ptr(p) => *p,
            WrapperData::MutPtr(p) => &**p,
            WrapperData::Value(_) => unreached(),
        }
    }

    /// Takes the inline value out and leaves the slot empty; the state is
    /// left as it was.
    pub fn take_value(&mut self) -> (r: Ta)
        requires
            old(self).spec_has_value(),
        ensures
            r == old(self).spec_target(),
            final(self).spec_is_inline(),
            !final(self).spec_has_value(),
            final(self).spec_gc_info() == old(self).spec_gc_info(),
            final(self).spec_ident() == old(self).spec_ident(),
    {
        let mut slot: Option<Ta> = None;
        match &mut self.data {
            WrapperData::Value(v) => {
                slot = v.take();
            },
            _ => {},
        }
        match slot {
            Some(v) => v,
            None => unreached(),
        }
    }

    fn gc_info_impl(&self) -> (r: GcInfo)
        ensures
            r == self.spec_gc_info(),
    {
        self.gc_info
    }

    fn set_gc_info_impl(&mut self, gc_info: GcInfo)
        ensures
            final(self).spec_gc_info() == gc_info,
            final(self).spec_ident() == old(self).spec_ident(),
            final(self).data == old(self).data,
    {
        self.gc_info = gc_info;
    }

    /// Destroys the container in place: an owned value still held inline is
    /// dropped, host data is left alone, and the state becomes `Dropped`.
    pub fn destroy(&mut self)
        requires
            old(self).spec_gc_info() is Owned || old(self).spec_gc_info() is SharedWithHost
                || old(self).spec_gc_info() is MutSharedWithHost,
        ensures
            final(self).spec_gc_info() == GcInfo::Dropped,
            !final(self).spec_has_value(),
            final(self).spec_is_inline() == old(self).spec_is_inline(),
            final(self).spec_is_shared() == old(self).spec_is_shared(),
            final(self).spec_is_mut_shared() == old(self).spec_is_mut_shared(),
            final(self).spec_ident() == old(self).spec_ident(),
    {
        match &mut self.data {
            WrapperData::Value(v) => {
                *v = None;
            },
            _ => {},
        }
        self.set_gc_info_impl(GcInfo::Dropped);
    }
}

/// Once a container no longer holds an inline value (it was moved out or
/// destroyed, or it never owned one), no sequence of state changes lets it be
/// moved out of: state changes never refill the slot.
pub proof fn lemma_move_out_at_most_once<'a, Ta>(w: Wrapper<'a, Ta>)
    requires
        !w.spec_has_value(),
    ensures
        !w.spec_can_move_out(),
        forall|g: GcInfo|
            #![trigger w.with_gc_info(g)]
            !w.with_gc_info(g).spec_can_move_out(),
{
}

impl<'a, Ta> Wrapper<'a, Ta> {
    /// The container after its state field is set to `g`.
    pub closed spec fn with_gc_info(self, g: GcInfo) -> Self {
        Wrapper { gc_info: g, ..self }
    }
}

/// The uniform operations through which the interpreter handles a container
/// without knowing what it holds.
pub trait DynBase {
    /// The type of the data that the container holds or refers to.
    type Target;

    spec fn dyn_spec_ident(&self) -> TypeIdent;

    spec fn dyn_spec_gc_info(&self) -> GcInfo;

    spec fn dyn_spec_addressable(&self) -> bool;

    spec fn dyn_spec_can_move_out(&self) -> bool;

    spec fn dyn_spec_target(&self) -> Self::Target;

    /// The declared identity.
    fn dyn_type_id(&self) -> (r: TypeIdent)
        ensures
            r == self.dyn_spec_ident(),
    ;

    /// A type-check descriptor for the declared identity.
    fn dyn_tyck_info(&self) -> (r: TypeCheckInfo)
        ensures
            r.ident == self.dyn_spec_ident(),
    ;

    /// Reads the ownership state.
    fn gc_info(&self) -> (r: GcInfo)
        ensures
            r == self.dyn_spec_gc_info(),
    ;

    /// Writes the ownership state; the data and the identity are unchanged.
    fn set_gc_info(&mut self, gc_info: GcInfo)
        requires
            gc_info.storable(),
        ensures
            final(self).dyn_spec_gc_info() == gc_info,
            final(self).dyn_spec_ident() == old(self).dyn_spec_ident(),
    ;

    /// The location of the live data: the inline slot when owned, the host
    /// address when shared.
    fn get_ptr(&self) -> (r: Location<'_, Self::Target>)
        requires
            self.dyn_spec_addressable(),
        ensures
            r.spec_target() == self.dyn_spec_target(),
            (r is Inline) == (self.dyn_spec_gc_info() is Owned),
    ;

    /// Hands the owned value over to the host; the state becomes
    /// `MovedToHost`.
    fn move_out(&mut self) -> (r: Self::Target)
        requires
            old(self).dyn_spec_can_move_out(),
        ensures
            r == old(self).dyn_spec_target(),
            final(self).dyn_spec_gc_info() == GcInfo::MovedToHost,
            !final(self).dyn_spec_can_move_out(),
            final(self).dyn_spec_ident() == old(self).dyn_spec_ident(),
    ;

    /// As `move_out`, for a caller that states the identity it expects; it
    /// must be the declared one.
    fn move_out_ck(&mut self, dest_ty: TypeIdent) -> (r: Self::Target)
        requires
            old(self).dyn_spec_can_move_out(),
            dest_ty == old(self).dyn_spec_ident(),
        ensures
            r == old(self).dyn_spec_target(),
            final(self).dyn_spec_gc_info() == GcInfo::MovedToHost,
            !final(self).dyn_spec_can_move_out(),
            final(self).dyn_spec_ident() == old(self).dyn_spec_ident(),
    ;
}

impl<'a, Ta> DynBase for Wrapper<'a, Ta> {
    type Target = Ta;

    open spec fn dyn_spec_ident(&self) -> TypeIdent {
        self.spec_ident()
    }

    open spec fn dyn_spec_gc_info(&self) -> GcInfo {
        self.spec_gc_info()
    }

    open spec fn dyn_spec_addressable(&self) -> bool {
        self.spec_addressable()
    }

    open spec fn dyn_spec_can_move_out(&self) -> bool {
        self.spec_can_move_out()
    }

    open spec fn dyn_spec_target(&self) -> Ta {
        self.spec_target()
    }

    fn dyn_type_id(&self) -> (r: TypeIdent) {
        self.ident
    }

    fn dyn_tyck_info(&self) -> (r: TypeCheckInfo) {
        TypeCheckInfo { ident: self.ident }
    }

    fn gc_info(&self) -> (r: GcInfo) {
        self.gc_info_impl()
    }

    fn set_gc_info(&mut self, gc_info: GcInfo) {
        self.set_gc_info_impl(gc_info)
    }

    fn get_ptr(&self) -> (r: Location<'_, Ta>) {
        match self.gc_info_impl() {
            GcInfo::Owned => Location::Inline(self.borrow_value()),
            _ => Location::Host(self.borrow_ptr()),
        }
    }

    fn move_out(&mut self) -> (r: Ta) {
        let r = self.take_value();
        self.set_gc_info_impl(GcInfo::MovedToHost);
        r
    }

    fn move_out_ck(&mut self, dest_ty: TypeIdent) -> (r: Ta) {
        self.move_out()
    }
}

} // verus!
