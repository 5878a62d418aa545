//! Trusted boundary to the outside collaborators: the wasmer virtual machine
//! that owns the guest's linear memory and entry point, and the MessagePack
//! codec that turns structured values into bytes. Each wrapper makes one
//! outside call; its contract states what the outside source shows. Store
//! objects panic when used with a store they do not belong to, so every
//! wrapper that pairs a store with one of its objects requires the pairing,
//! which is decided once through `is_from_store`.

use vstd::prelude::*;

verus! {

#[verifier::external_type_specification]
#[verifier::external_body]
pub struct ExStore(wasmer::Store);

#[verifier::external_type_specification]
#[verifier::external_body]
pub struct ExInstance(wasmer::Instance);

#[verifier::external_type_specification]
#[verifier::external_body]
pub struct ExMemory(wasmer::Memory);

#[verifier::external_type_specification]
#[verifier::external_body]
pub struct ExFunction(wasmer::Function);

#[verifier::external_type_specification]
#[verifier::external_body]
pub struct ExJson(serde_json::Value);

/// The bytes of the guest linear memory `m`, as held by the store `s`.
pub uninterp spec fn mem_of(m: wasmer::Memory, s: wasmer::Store) -> Seq<u8>;

/// Whether the memory `m` belongs to the store `s`: whether `s` is the store
/// it was created in, the only one it may be used with.
pub uninterp spec fn memory_in_store(m: wasmer::Memory, s: wasmer::Store) -> bool;

/// Whether the function `f` belongs to the store `s`.
pub uninterp spec fn function_in_store(f: wasmer::Function, s: wasmer::Store) -> bool;

/// Whether the instance `i` exports a function under `name`.
pub uninterp spec fn has_function_export(i: wasmer::Instance, name: Seq<char>) -> bool;

/// The function that instance `i` exports under `name`.
pub uninterp spec fn function_export_of(i: wasmer::Instance, name: Seq<char>) -> wasmer::Function;

/// Whether the instance `i` exports a linear memory under `name`.
pub uninterp spec fn has_memory_export(i: wasmer::Instance, name: Seq<char>) -> bool;

/// The memory that instance `i` exports under `name`.
pub uninterp spec fn memory_export_of(i: wasmer::Instance, name: Seq<char>) -> wasmer::Memory;

/// The value of the global that instance `i` exports under `name`, as read
/// through store `s`, a 32-bit global taken unsigned: `None` where the
/// export is absent, not an integer, or not of this store.
pub uninterp spec fn global_integer_of(
    i: wasmer::Instance,
    s: wasmer::Store,
    name: Seq<char>,
) -> Option<i64>;

/// The MessagePack encoding of the structured value `v`: `None` where the
/// serializer rejects the value. The result depends on the value alone.
pub uninterp spec fn msgpack_of(v: serde_json::Value) -> Option<Seq<u8>>;

/// The structured value encoded by the MessagePack bytes `b`: `None` where
/// the bytes are truncated or invalid. The result depends on the bytes
/// alone.
pub uninterp spec fn msgpack_value_of(b: Seq<u8>) -> Option<serde_json::Value>;

/// Relies on wasmer's `Memory::is_from_store`: whether the memory carries
/// the id of this store.
#[verifier::external_body]
pub(crate) fn memory_belongs(s: &wasmer::Store, m: &wasmer::Memory) -> (r: bool)
    ensures
        r <==> memory_in_store(*m, *s),
{
    m.is_from_store(s)
}

/// Relies on wasmer's `Function::is_from_store`: whether the function
/// carries the id of this store.
#[verifier::external_body]
pub(crate) fn function_belongs(s: &wasmer::Store, f: &wasmer::Function) -> (r: bool)
    ensures
        r <==> function_in_store(*f, *s),
{
    f.is_from_store(s)
}

/// Relies on wasmer's `MemoryView::data_size`: the current byte length of
/// the linear memory.
#[verifier::external_body]
pub(crate) fn vm_size(s: &wasmer::Store, m: &wasmer::Memory) -> (r: u64)
    requires
        memory_in_store(*m, *s),
    ensures
        r == mem_of(*m, *s).len(),
{
    m.view(s).data_size()
}

/// Relies on wasmer's `Memory::grow`: on success the memory keeps its bytes
/// and gains `pages` zero-filled pages of 65536 bytes; on failure (a
/// configured maximum or the index range exceeded) it is unchanged. Growth
/// never moves an object to another store.
#[verifier::external_body]
pub(crate) fn vm_grow(s: &mut wasmer::Store, m: &wasmer::Memory, pages: u32) -> (r: Result<
    (),
    String,
>)
    requires
        memory_in_store(*m, *old(s)),
    ensures
        r is Ok ==> mem_of(*m, *final(s)).len() == mem_of(*m, *old(s)).len() + pages as int
            * 65536,
        r is Ok ==> forall|i: int|
            0 <= i < mem_of(*m, *old(s)).len() ==> mem_of(*m, *final(s))[i] == mem_of(
                *m,
                *old(s),
            )[i],
        r is Err ==> mem_of(*m, *final(s)) == mem_of(*m, *old(s)),
        forall|m2: wasmer::Memory|
            (#[trigger] memory_in_store(m2, *final(s))) == memory_in_store(m2, *old(s)),
        forall|f2: wasmer::Function|
            (#[trigger] function_in_store(f2, *final(s))) == function_in_store(f2, *old(s)),
{
    match m.grow(s, pages) {
        Ok(_) => Ok(()),
        Err(e) => Err(format!("{e}")),
    }
}

/// Relies on wasmer's `MemoryView::write`: the bounds are checked before any
/// byte is copied, so the write succeeds exactly when the range lies inside
/// the memory, replaces exactly that range, and on failure changes nothing.
#[verifier::external_body]
pub(crate) fn vm_write(
    s: &mut wasmer::Store,
    m: &wasmer::Memory,
    offset: u64,
    data: &Vec<u8>,
) -> (r: Result<(), String>)
    requires
        memory_in_store(*m, *old(s)),
    ensures
        r is Ok <==> offset + data@.len() <= mem_of(*m, *old(s)).len(),
        r is Ok ==> mem_of(*m, *final(s)) == crate::wire::splice_at(
            mem_of(*m, *old(s)),
            offset as int,
            data@,
        ),
        r is Err ==> mem_of(*m, *final(s)) == mem_of(*m, *old(s)),
        forall|m2: wasmer::Memory|
            (#[trigger] memory_in_store(m2, *final(s))) == memory_in_store(m2, *old(s)),
        forall|f2: wasmer::Function|
            (#[trigger] function_in_store(f2, *final(s))) == function_in_store(f2, *old(s)),
{
    match m.view(s).write(offset, data.as_slice()) {
        Ok(()) => Ok(()),
        Err(e) => Err(format!("{e}")),
    }
}

/// Relies on wasmer's `MemoryView::read`: the bounds are checked before any
/// byte is copied, so the read succeeds exactly when the range lies inside
/// the memory, and then fills the buffer with exactly those bytes.
#[verifier::external_body]
pub(crate) fn vm_read(s: &wasmer::Store, m: &wasmer::Memory, offset: u64, len: u32) -> (r: Result<
    Vec<u8>,
    String,
>)
    requires
        memory_in_store(*m, *s),
    ensures
        r is Ok <==> offset + len as int <= mem_of(*m, *s).len(),
        r matches Ok(b) ==> b@ == mem_of(*m, *s).subrange(offset as int, offset as int + len as int),
{
    let mut buf = vec![0u8; len as usize];
    match m.view(s).read(offset, &mut buf) {
        Ok(()) => Ok(buf),
        Err(e) => Err(format!("{e}")),
    }
}

/// Relies on wasmer's `Function::call`: runs the guest entry point on the
/// single integer argument until it returns or traps. The guest may rewrite
/// its memory arbitrarily, so nothing is claimed of memory contents
/// afterwards; each returned value is kept only if it is a 32-bit integer.
/// The call never moves an object to another store.
#[verifier::external_body]
pub(crate) fn vm_call(s: &mut wasmer::Store, f: &wasmer::Function, arg: u32) -> (r: Result<
    Vec<Option<u32>>,
    String,
>)
    requires
        function_in_store(*f, *old(s)),
    ensures
        forall|m2: wasmer::Memory|
            (#[trigger] memory_in_store(m2, *final(s))) == memory_in_store(m2, *old(s)),
        forall|f2: wasmer::Function|
            (#[trigger] function_in_store(f2, *final(s))) == function_in_store(f2, *old(s)),
{
    match f.call(s, &[wasmer::Value::I32(arg as i32)]) {
        Ok(vs) => Ok(
            vs.iter().map(
                |v|
                    match v {
                        wasmer::Value::I32(x) => Some(*x as u32),
                        _ => None,
                    },
            ).collect(),
        ),
        Err(e) => Err(format!("{e}")),
    }
}

/// Relies on wasmer's `Exports::get_function`: a plain lookup in the
/// instance's export map, present exactly when the instance exports a
/// function under that name.
#[verifier::external_body]
pub(crate) fn lookup_function(i: &wasmer::Instance, name: &str) -> (r: Option<wasmer::Function>)
    ensures
        r is Some <==> has_function_export(*i, name@),
        r matches Some(f) ==> f == function_export_of(*i, name@),
{
    i.exports.get_function(name).ok().cloned()
}

/// Relies on wasmer's `Exports::get_memory`: a plain lookup in the
/// instance's export map, present exactly when the instance exports a
/// linear memory under that name.
#[verifier::external_body]
pub(crate) fn lookup_memory(i: &wasmer::Instance, name: &str) -> (r: Option<wasmer::Memory>)
    ensures
        r is Some <==> has_memory_export(*i, name@),
        r matches Some(m) ==> m == memory_export_of(*i, name@),
{
    i.exports.get_memory(name).ok().cloned()
}

/// Relies on wasmer's `Exports::get_global`, `Global::is_from_store` and
/// `Global::get`: the value of the exported global of that name, where the
/// instance has one, it belongs to this store, and it holds an integer; a
/// 32-bit global is read as an unsigned address. Reading a global keeps
/// every memory's contents and every object's store membership (a
/// reference-typed global may register a fresh object in the store, so the
/// store value itself is not claimed unchanged).
#[verifier::external_body]
pub(crate) fn lookup_global_integer(
    s: &mut wasmer::Store,
    i: &wasmer::Instance,
    name: &str,
) -> (r: Option<i64>)
    ensures
        r == global_integer_of(*i, *old(s), name@),
        forall|m2: wasmer::Memory| (#[trigger] mem_of(m2, *final(s))) == mem_of(m2, *old(s)),
        forall|m2: wasmer::Memory|
            (#[trigger] memory_in_store(m2, *final(s))) == memory_in_store(m2, *old(s)),
        forall|f2: wasmer::Function|
            (#[trigger] function_in_store(f2, *final(s))) == function_in_store(f2, *old(s)),
{
    match i.exports.get_global(name) {
        Ok(g) if g.is_from_store(&*s) => match g.get(s) {
            wasmer::Value::I32(x) => Some(i64::from(x as u32)),
            wasmer::Value::I64(x) => Some(x),
            _ => None,
        },
        _ => None,
    }
}

/// Relies on `rmp_serde::to_vec`: the MessagePack encoding of the value,
/// which depends on the value alone, or the serializer's error. The codec
/// loses nothing: where the produced bytes decode at all, they decode back
/// to exactly the value. (The deserializer caps nesting at a fixed depth
/// that the serializer does not enforce, so a deeply nested value may
/// encode and yet not decode; its bytes' named value is then `None`.)
#[verifier::external_body]
pub(crate) fn encode_value(v: &serde_json::Value) -> (r: Result<Vec<u8>, String>)
    ensures
        r matches Ok(b) ==> msgpack_of(*v) == Some(b@),
        r matches Ok(b) ==> (msgpack_value_of(b@) is Some ==> msgpack_value_of(b@) == Some(*v)),
        r is Ok <==> msgpack_of(*v) is Some,
{
    rmp_serde::to_vec(v).map_err(|e| format!("{e}"))
}

/// Relies on `rmp_serde::from_slice`: the value decoded from the MessagePack
/// bytes, which depends on the bytes alone, or the deserializer's error on a
/// truncated or invalid encoding.
#[verifier::external_body]
pub(crate) fn decode_value(b: &Vec<u8>) -> (r: Result<serde_json::Value, String>)
    ensures
        r matches Ok(w) ==> msgpack_value_of(b@) == Some(w),
        r is Ok <==> msgpack_value_of(b@) is Some,
{
    rmp_serde::from_slice(b.as_slice()).map_err(|e| format!("{e}"))
}

} // verus!
