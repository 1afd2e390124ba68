//! The constant-pool model: a random-access table of typed records, as
//! the class-file loader hands it over. The analysis only ever reads it
//! as a lookup service: reference records lead to name-and-type records,
//! which lead to UTF-8 descriptor text.

use vstd::prelude::*;
use crate::descriptor;
use crate::error::ErrorKind;
use crate::value::Value;

verus! {

/// One constant-pool record. Only what the stack analysis reads is kept:
/// record kinds, cross-indices and descriptor text. Numeric constant
/// records carry no payload, since only their category matters here.
#[derive(Clone, Debug)]
pub enum PoolEntry {
    /// Slot 0 and the phantom slot after each 8-byte constant.
    Unusable,
    /// A class reference, naming its UTF-8 entry.
    Class { name_index: u16 },
    /// A field reference: owning class and name-and-type.
    FieldRef { class_index: u16, name_and_type_index: u16 },
    /// A method reference: owning class and name-and-type.
    MethodRef { class_index: u16, name_and_type_index: u16 },
    /// An interface-method reference: owning interface and name-and-type.
    InterfaceMethodRef { class_index: u16, name_and_type_index: u16 },
    /// A string constant, naming its UTF-8 entry.
    StringConst { string_index: u16 },
    /// A 32-bit integer constant.
    IntegerConst,
    /// A 32-bit floating-point constant.
    FloatConst,
    /// A 64-bit integer constant.
    LongConst,
    /// A 64-bit floating-point constant.
    DoubleConst,
    /// A name-and-type pair: method or field name, and its descriptor.
    NameAndType { name_index: u16, descriptor_index: u16 },
    /// UTF-8 text, as raw bytes.
    Utf8 { text: Vec<u8> },
    /// A method-handle constant.
    MethodHandle,
    /// A method-type constant, naming its descriptor's UTF-8 entry.
    MethodType { descriptor_index: u16 },
    /// A dynamically computed constant; its name-and-type's descriptor
    /// gives the constant's field type.
    Dynamic { bootstrap_index: u16, name_and_type_index: u16 },
    /// A dynamically computed call site; its name-and-type's descriptor
    /// gives the call's method type.
    InvokeDynamic { bootstrap_index: u16, name_and_type_index: u16 },
    /// A module record.
    Module { name_index: u16 },
    /// A package record.
    Package { name_index: u16 },
}

/// Looking an index up: in range and usable, or a resolution error.
pub open spec fn spec_get(pool: Seq<PoolEntry>, index: u16) -> Result<PoolEntry, ErrorKind> {
    if index < pool.len() && !(pool[index as int] is Unusable) {
        Ok(pool[index as int])
    } else {
        Err(ErrorKind::BadPoolIndex { index })
    }
}

/// The UTF-8 text an index must point at.
pub open spec fn spec_utf8(pool: Seq<PoolEntry>, index: u16) -> Result<Seq<u8>, ErrorKind> {
    match spec_get(pool, index) {
        Err(e) => Err(e),
        Ok(entry) => match entry {
            PoolEntry::Utf8 { text } => Ok(text@),
            _ => Err(ErrorKind::WrongPoolEntry { index }),
        },
    }
}

/// The descriptor text behind a name-and-type record.
pub open spec fn spec_name_and_type_descriptor(pool: Seq<PoolEntry>, index: u16) -> Result<
    Seq<u8>,
    ErrorKind,
> {
    match spec_get(pool, index) {
        Err(e) => Err(e),
        Ok(entry) => match entry {
            PoolEntry::NameAndType { name_index, descriptor_index } => spec_utf8(
                pool,
                descriptor_index,
            ),
            _ => Err(ErrorKind::WrongPoolEntry { index }),
        },
    }
}

/// The field descriptor text behind a field reference.
pub open spec fn spec_field_ref_descriptor(pool: Seq<PoolEntry>, index: u16) -> Result<
    Seq<u8>,
    ErrorKind,
> {
    match spec_get(pool, index) {
        Err(e) => Err(e),
        Ok(entry) => match entry {
            PoolEntry::FieldRef { class_index, name_and_type_index } => {
                spec_name_and_type_descriptor(pool, name_and_type_index)
            },
            _ => Err(ErrorKind::WrongPoolEntry { index }),
        },
    }
}

/// The method descriptor text behind a method or interface-method
/// reference.
pub open spec fn spec_method_ref_descriptor(pool: Seq<PoolEntry>, index: u16) -> Result<
    Seq<u8>,
    ErrorKind,
> {
    match spec_get(pool, index) {
        Err(e) => Err(e),
        Ok(entry) => match entry {
            PoolEntry::MethodRef { class_index, name_and_type_index } => {
                spec_name_and_type_descriptor(pool, name_and_type_index)
            },
            PoolEntry::InterfaceMethodRef { class_index, name_and_type_index } => {
                spec_name_and_type_descriptor(pool, name_and_type_index)
            },
            _ => Err(ErrorKind::WrongPoolEntry { index }),
        },
    }
}

/// The method descriptor text behind a dynamic call-site record.
pub open spec fn spec_invoke_dynamic_descriptor(pool: Seq<PoolEntry>, index: u16) -> Result<
    Seq<u8>,
    ErrorKind,
> {
    match spec_get(pool, index) {
        Err(e) => Err(e),
        Ok(entry) => match entry {
            PoolEntry::InvokeDynamic { bootstrap_index, name_and_type_index } => {
                spec_name_and_type_descriptor(pool, name_and_type_index)
            },
            _ => Err(ErrorKind::WrongPoolEntry { index }),
        },
    }
}

/// The stack `Value` a field access at this index pushes or pops: the
/// referenced field descriptor, decoded and narrowed.
pub open spec fn spec_field_value(pool: Seq<PoolEntry>, index: u16) -> Result<Value, ErrorKind> {
    match spec_field_ref_descriptor(pool, index) {
        Err(e) => Err(e),
        Ok(text) => match descriptor::spec_field_descriptor(text) {
            Some(v) => Ok(v),
            None => Err(ErrorKind::InvalidDescriptor),
        },
    }
}

/// The argument and return `Value`s of a method reference at this index.
pub open spec fn spec_method_value(pool: Seq<PoolEntry>, index: u16) -> Result<
    (Seq<Value>, Option<Value>),
    ErrorKind,
> {
    match spec_method_ref_descriptor(pool, index) {
        Err(e) => Err(e),
        Ok(text) => match descriptor::spec_method_descriptor(text) {
            Some(t) => Ok(t),
            None => Err(ErrorKind::InvalidDescriptor),
        },
    }
}

/// The argument and return `Value`s of a dynamic call site at this index.
pub open spec fn spec_invoke_dynamic_value(pool: Seq<PoolEntry>, index: u16) -> Result<
    (Seq<Value>, Option<Value>),
    ErrorKind,
> {
    match spec_invoke_dynamic_descriptor(pool, index) {
        Err(e) => Err(e),
        Ok(text) => match descriptor::spec_method_descriptor(text) {
            Some(t) => Ok(t),
            None => Err(ErrorKind::InvalidDescriptor),
        },
    }
}

/// The `Value` category a one-word load-constant instruction pushes for
/// the record at this index: integer, float, string, class, method handle
/// or method type, or a dynamic constant whose field descriptor decodes
/// to a one-word category.
pub open spec fn spec_loadable_small(pool: Seq<PoolEntry>, index: u16) -> Result<
    Value,
    ErrorKind,
> {
    match spec_get(pool, index) {
        Err(e) => Err(e),
        Ok(entry) => match entry {
            PoolEntry::IntegerConst => Ok(Value::I32),
            PoolEntry::FloatConst => Ok(Value::F32),
            PoolEntry::StringConst { string_index } => Ok(Value::Ref),
            PoolEntry::Class { name_index } => Ok(Value::Ref),
            PoolEntry::MethodHandle => Ok(Value::Ref),
            PoolEntry::MethodType { descriptor_index } => Ok(Value::Ref),
            PoolEntry::Dynamic { bootstrap_index, name_and_type_index } => {
                match spec_name_and_type_descriptor(pool, name_and_type_index) {
                    Err(e) => Err(e),
                    Ok(text) => match descriptor::spec_field_descriptor(text) {
                        Some(v) => if !v.spec_is_big() {
                            Ok(v)
                        } else {
                            Err(ErrorKind::WrongPoolEntry { index })
                        },
                        None => Err(ErrorKind::InvalidDescriptor),
                    },
                }
            },
            _ => Err(ErrorKind::WrongPoolEntry { index }),
        },
    }
}

/// The `Value` category a two-word load-constant instruction pushes for
/// the record at this index: long, double, or a dynamic constant whose
/// field descriptor decodes to a two-word category.
pub open spec fn spec_loadable_big(pool: Seq<PoolEntry>, index: u16) -> Result<Value, ErrorKind> {
    match spec_get(pool, index) {
        Err(e) => Err(e),
        Ok(entry) => match entry {
            PoolEntry::LongConst => Ok(Value::I64),
            PoolEntry::DoubleConst => Ok(Value::F64),
            PoolEntry::Dynamic { bootstrap_index, name_and_type_index } => {
                match spec_name_and_type_descriptor(pool, name_and_type_index) {
                    Err(e) => Err(e),
                    Ok(text) => match descriptor::spec_field_descriptor(text) {
                        Some(v) => if v.spec_is_big() {
                            Ok(v)
                        } else {
                            Err(ErrorKind::WrongPoolEntry { index })
                        },
                        None => Err(ErrorKind::InvalidDescriptor),
                    },
                }
            },
            _ => Err(ErrorKind::WrongPoolEntry { index }),
        },
    }
}

/// The constant pool of one class, indexable by entry number.
pub struct ConstPool {
    entries: Vec<PoolEntry>,
}

impl View for ConstPool {
    type V = Seq<PoolEntry>;

    closed spec fn view(&self) -> Seq<PoolEntry> {
        self.entries@
    }
}

impl ConstPool {
    /// Wraps an entry table. Slot `i` of the table is pool index `i`;
    /// callers put `Unusable` at slot 0 and after each 8-byte constant.
    pub fn new(entries: Vec<PoolEntry>) -> (p: ConstPool)
        ensures
            p@ == entries@,
    {
        ConstPool { entries }
    }

    /// Looks an index up, rejecting out-of-range or unusable slots.
    pub fn get(&self, index: u16) -> (r: Result<&PoolEntry, ErrorKind>)
        ensures
            match r {
                Ok(entry) => spec_get(self@, index) == Ok::<PoolEntry, ErrorKind>(*entry),
                Err(e) => spec_get(self@, index) == Err::<PoolEntry, ErrorKind>(e),
            },
    {
        if (index as usize) < self.entries.len() {
            let entry = &self.entries[index as usize];
            if matches!(entry, PoolEntry::Unusable) {
                Err(ErrorKind::BadPoolIndex { index })
            } else {
                Ok(entry)
            }
        } else {
            Err(ErrorKind::BadPoolIndex { index })
        }
    }

    /// The UTF-8 text at an index.
    pub fn utf8(&self, index: u16) -> (r: Result<&Vec<u8>, ErrorKind>)
        ensures
            match r {
                Ok(text) => spec_utf8(self@, index) == Ok::<Seq<u8>, ErrorKind>(text@),
                Err(e) => spec_utf8(self@, index) == Err::<Seq<u8>, ErrorKind>(e),
            },
    {
        match self.get(index)? {
            PoolEntry::Utf8 { text } => Ok(text),
            _ => Err(ErrorKind::WrongPoolEntry { index }),
        }
    }

    /// The descriptor text behind a name-and-type record.
    pub fn name_and_type_descriptor(&self, index: u16) -> (r: Result<&Vec<u8>, ErrorKind>)
        ensures
            match r {
                Ok(text) => spec_name_and_type_descriptor(self@, index) == Ok::<
                    Seq<u8>,
                    ErrorKind,
                >(text@),
                Err(e) => spec_name_and_type_descriptor(self@, index) == Err::<
                    Seq<u8>,
                    ErrorKind,
                >(e),
            },
    {
        match self.get(index)? {
            PoolEntry::NameAndType { name_index: _, descriptor_index } => {
                let di = *descriptor_index;
                self.utf8(di)
            },
            _ => Err(ErrorKind::WrongPoolEntry { index }),
        }
    }

    /// The `Value` a field access at this index moves: its descriptor,
    /// decoded and narrowed.
    pub fn field_value(&self, index: u16) -> (r: Result<Value, ErrorKind>)
        ensures
            match r {
                Ok(v) => spec_field_value(self@, index) == Ok::<Value, ErrorKind>(v),
                Err(e) => spec_field_value(self@, index) == Err::<Value, ErrorKind>(e),
            },
    {
        let text = match self.get(index)? {
            PoolEntry::FieldRef { class_index: _, name_and_type_index } => {
                let nt = *name_and_type_index;
                self.name_and_type_descriptor(nt)?
            },
            _ => {
                return Err(ErrorKind::WrongPoolEntry { index });
            },
        };
        match descriptor::parse_field_descriptor(text.as_slice()) {
            Ok(v) => Ok(v),
            Err(_) => Err(ErrorKind::InvalidDescriptor),
        }
    }

    /// The argument and return `Value`s of the method or interface-method
    /// reference at this index.
    pub fn method_value(&self, index: u16) -> (r: Result<(Vec<Value>, Option<Value>), ErrorKind>)
        ensures
            match r {
                Ok(t) => spec_method_value(self@, index) == Ok::<
                    (Seq<Value>, Option<Value>),
                    ErrorKind,
                >((t.0@, t.1)),
                Err(e) => spec_method_value(self@, index) == Err::<
                    (Seq<Value>, Option<Value>),
                    ErrorKind,
                >(e),
            },
    {
        let text = match self.get(index)? {
            PoolEntry::MethodRef { class_index: _, name_and_type_index } => {
                let nt = *name_and_type_index;
                self.name_and_type_descriptor(nt)?
            },
            PoolEntry::InterfaceMethodRef { class_index: _, name_and_type_index } => {
                let nt = *name_and_type_index;
                self.name_and_type_descriptor(nt)?
            },
            _ => {
                return Err(ErrorKind::WrongPoolEntry { index });
            },
        };
        match descriptor::parse_method_descriptor(text.as_slice()) {
            Ok(t) => Ok(t),
            Err(_) => Err(ErrorKind::InvalidDescriptor),
        }
    }

    /// The argument and return `Value`s of the dynamic call site at this
    /// index.
    pub fn invoke_dynamic_value(&self, index: u16) -> (r: Result<
        (Vec<Value>, Option<Value>),
        ErrorKind,
    >)
        ensures
            match r {
                Ok(t) => spec_invoke_dynamic_value(self@, index) == Ok::<
                    (Seq<Value>, Option<Value>),
                    ErrorKind,
                >((t.0@, t.1)),
                Err(e) => spec_invoke_dynamic_value(self@, index) == Err::<
                    (Seq<Value>, Option<Value>),
                    ErrorKind,
                >(e),
            },
    {
        let text = match self.get(index)? {
            PoolEntry::InvokeDynamic { bootstrap_index: _, name_and_type_index } => {
                let nt = *name_and_type_index;
                self.name_and_type_descriptor(nt)?
            },
            _ => {
                return Err(ErrorKind::WrongPoolEntry { index });
            },
        };
        match descriptor::parse_method_descriptor(text.as_slice()) {
            Ok(t) => Ok(t),
            Err(_) => Err(ErrorKind::InvalidDescriptor),
        }
    }

    /// The category a one-word load-constant instruction pushes for the
    /// record at this index.
    pub fn loadable_small(&self, index: u16) -> (r: Result<Value, ErrorKind>)
        ensures
            match r {
                Ok(v) => spec_loadable_small(self@, index) == Ok::<Value, ErrorKind>(v),
                Err(e) => spec_loadable_small(self@, index) == Err::<Value, ErrorKind>(e),
            },
    {
        let nt = match self.get(index)? {
            PoolEntry::IntegerConst => {
                return Ok(Value::I32);
            },
            PoolEntry::FloatConst => {
                return Ok(Value::F32);
            },
            PoolEntry::StringConst { string_index: _ } => {
                return Ok(Value::Ref);
            },
            PoolEntry::Class { name_index: _ } => {
                return Ok(Value::Ref);
            },
            PoolEntry::MethodHandle => {
                return Ok(Value::Ref);
            },
            PoolEntry::MethodType { descriptor_index: _ } => {
                return Ok(Value::Ref);
            },
            PoolEntry::Dynamic { bootstrap_index: _, name_and_type_index } => {
                *name_and_type_index
            },
            _ => {
                return Err(ErrorKind::WrongPoolEntry { index });
            },
        };
        let text = self.name_and_type_descriptor(nt)?;
        match descriptor::parse_field_descriptor(text.as_slice()) {
            Ok(v) => if v.is_small() {
                Ok(v)
            } else {
                Err(ErrorKind::WrongPoolEntry { index })
            },
            Err(_) => Err(ErrorKind::InvalidDescriptor),
        }
    }

    /// The category a two-word load-constant instruction pushes for the
    /// record at this index.
    pub fn loadable_big(&self, index: u16) -> (r: Result<Value, ErrorKind>)
        ensures
            match r {
                Ok(v) => spec_loadable_big(self@, index) == Ok::<Value, ErrorKind>(v),
                Err(e) => spec_loadable_big(self@, index) == Err::<Value, ErrorKind>(e),
            },
    {
        let nt = match self.get(index)? {
            PoolEntry::LongConst => {
                return Ok(Value::I64);
            },
            PoolEntry::DoubleConst => {
                return Ok(Value::F64);
            },
            PoolEntry::Dynamic { bootstrap_index: _, name_and_type_index } => {
                *name_and_type_index
            },
            _ => {
                return Err(ErrorKind::WrongPoolEntry { index });
            },
        };
        let text = self.name_and_type_descriptor(nt)?;
        match descriptor::parse_field_descriptor(text.as_slice()) {
            Ok(v) => if v.is_big() {
                Ok(v)
            } else {
                Err(ErrorKind::WrongPoolEntry { index })
            },
            Err(_) => Err(ErrorKind::InvalidDescriptor),
        }
    }
}

} // verus!
