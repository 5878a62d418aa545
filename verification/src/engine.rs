//! The invocation driver: one exchange with a guest instance. It grows the
//! guest's linear memory, places the length-prefixed request envelope at the
//! base address, invokes the entry point with that address, and resolves the
//! returned response location through its descriptor. A failed call marks
//! the engine as spent: the instance must be discarded, never reused.

use vstd::prelude::*;

use crate::vm;
use crate::wire;

verus! {

/// Pages of the guest linear memory are this many bytes.
pub const PAGE_SIZE: u32 = 65536;

/// The base address used when the guest exports no heap-start marker: a
/// fixed address known to lie above the guest's static data.
pub const FALLBACK_BASE: u32 = 0x110000;

/// The export whose absence makes a guest image structurally incompatible.
#[derive(Clone, Copy, Debug, PartialEq, Eq, Structural)]
pub enum ExportKind {
    /// The single entry-point function, exported as "main".
    EntryPoint,
    /// The linear memory, exported as "memory".
    LinearMemory,
}

/// Why an exchange failed. Every failure carries the values needed to
/// diagnose it; none is retried and none yields partial output.
#[derive(Debug, PartialEq)]
pub enum ExchangeError {
    /// The guest image lacks a required export; fatal, found before any
    /// memory write.
    MissingExport { export: ExportKind },
    /// The instance's exports belong to a different store than the one
    /// given: no exchange can be issued over such a pairing.
    StoreMismatch,
    /// The virtual machine refused to grow the linear memory.
    Grow { message: String },
    /// A write or read of `need` bytes at `at` would pass the current end
    /// of the memory.
    OutOfBounds { at: u64, need: u64, size: u64 },
    /// The encoded request would overflow the 32-bit length prefix.
    OversizedRequest { length: usize },
    /// The guest trapped or aborted inside the entry point.
    Trap { message: String },
    /// The entry point did not return exactly one 32-bit integer.
    UnexpectedResultShape { arity: usize },
    /// The response location or its descriptor points outside the memory.
    MalformedResponse { pointer: u64, length: u64, size: u64 },
    /// The codec could not encode the input value.
    Encode { message: String },
    /// The codec could not decode the response payload.
    Decode { message: String },
}

/// The number of whole pages that cover `byte_len` bytes.
pub open spec fn pages_for_spec(byte_len: int) -> int {
    (byte_len + (PAGE_SIZE - 1)) / (PAGE_SIZE as int)
}

/// Computes the whole pages needed to cover `byte_len` bytes: enough that
/// growing by this many pages adds at least `byte_len` bytes.
pub fn pages_for(byte_len: u64) -> (r: u32)
    requires
        byte_len <= u32::MAX,
    ensures
        r == pages_for_spec(byte_len as int),
        r as int * PAGE_SIZE >= byte_len,
{
    let pages = (byte_len + 65535) / 65536;
    proof {
        assert(pages * 65536 >= byte_len && pages == pages_for_spec(byte_len as int))
            by (nonlinear_arith)
            requires
                pages == (byte_len + 65535) / 65536,
                byte_len <= u32::MAX,
        ;
    }
    pages as u32
}

/// The base-address choice for one guest instance: the exported heap-start
/// marker where the guest provides one that fits an address, else the fixed
/// fallback.
pub open spec fn chosen_base(heap_start_export: Option<i64>) -> u32 {
    match heap_start_export {
        Some(v) => if 0 <= v <= u32::MAX {
            v as u32
        } else {
            FALLBACK_BASE
        },
        None => FALLBACK_BASE,
    }
}

/// Picks the base address for one guest instance, as `chosen_base` says.
/// Stable for the instance's lifetime.
pub fn choose_base_address(heap_start_export: Option<i64>) -> (r: u32)
    ensures
        r == chosen_base(heap_start_export),
{
    match heap_start_export {
        Some(v) => if v >= 0 && v <= u32::MAX as i64 {
            v as u32
        } else {
            FALLBACK_BASE
        },
        None => FALLBACK_BASE,
    }
}

/// The single response location among the entry point's results, where they
/// are exactly one 32-bit integer.
pub open spec fn location_of_results(results: Seq<Option<u32>>) -> Option<u32> {
    if results.len() == 1 && results[0] is Some {
        results[0]
    } else {
        None
    }
}

/// Checks the shape of what the entry point returned: exactly one 32-bit
/// integer is a response location; any other arity or type is rejected, and
/// no value of such a result is taken for a descriptor address.
pub fn response_location(results: &Vec<Option<u32>>) -> (r: Result<u32, ExchangeError>)
    ensures
        match r {
            Ok(loc) => location_of_results(results@) == Some(loc),
            Err(e) => location_of_results(results@) is None && (e matches
                ExchangeError::UnexpectedResultShape { arity } && arity == results@.len()),
        },
{
    if results.len() != 1 {
        return Err(ExchangeError::UnexpectedResultShape { arity: results.len() });
    }
    match results[0] {
        Some(loc) => Ok(loc),
        None => Err(ExchangeError::UnexpectedResultShape { arity: 1 }),
    }
}

/// One guest instance, ready for at most one exchange at a time. The
/// exclusive borrow taken by every call keeps two exchanges from ever
/// interleaving their writes at the base address.
pub struct Engine {
    store: wasmer::Store,
    memory: wasmer::Memory,
    entry: wasmer::Function,
    base: u32,
    ready: bool,
}

impl Engine {
    /// The bytes of the guest's linear memory as this engine sees them.
    pub closed spec fn mem(self) -> Seq<u8> {
        vm::mem_of(self.memory, self.store)
    }

    /// The base address chosen for this instance.
    pub closed spec fn base_spec(self) -> u32 {
        self.base
    }

    /// Whether the engine may still issue a call: true until a call fails,
    /// after which the instance's memory state is undefined and the engine
    /// refuses further exchanges.
    pub closed spec fn is_ready(self) -> bool {
        self.ready
    }

    /// The engine keeps its memory, entry point and base address for life.
    pub closed spec fn same_instance(self, other: Engine) -> bool {
        self.memory == other.memory && self.entry == other.entry && self.base == other.base
    }

    /// Whether the engine's memory and entry point belong to its store: the
    /// pairing that every memory operation and call needs. Established at
    /// construction and kept by every call.
    pub closed spec fn wf(self) -> bool {
        vm::memory_in_store(self.memory, self.store) && vm::function_in_store(
            self.entry,
            self.store,
        )
    }

    /// Binds a driver to an instantiated guest: locates the exported entry
    /// point and linear memory by name, failing fatally on a missing export
    /// before any memory operation, checks that the exports belong to the
    /// given store, and records the base address once, from the guest's
    /// exported heap-start marker where it has one.
    pub fn from_instance(store: wasmer::Store, instance: &wasmer::Instance) -> (r: Result<
        Engine,
        ExchangeError,
    >)
        ensures
            (r matches Err(ExchangeError::MissingExport { .. })) <==> !(vm::has_function_export(
                *instance,
                "main"@,
            ) && vm::has_memory_export(*instance, "memory"@)),
            !vm::has_function_export(*instance, "main"@) ==> (r matches Err(
                ExchangeError::MissingExport { export },
            ) && export == ExportKind::EntryPoint),
            vm::has_function_export(*instance, "main"@) && !vm::has_memory_export(
                *instance,
                "memory"@,
            ) ==> (r matches Err(ExchangeError::MissingExport { export }) && export
                == ExportKind::LinearMemory),
            r matches Err(e) ==> e matches ExchangeError::MissingExport { .. } || e matches
                ExchangeError::StoreMismatch,
            r matches Ok(e) ==> e.is_ready() && e.wf() && e.base_spec() == chosen_base(
                vm::global_integer_of(*instance, store, "__heap_base"@),
            ),
            r is Ok <==> vm::has_function_export(*instance, "main"@) && vm::has_memory_export(
                *instance,
                "memory"@,
            ) && vm::function_in_store(vm::function_export_of(*instance, "main"@), store)
                && vm::memory_in_store(vm::memory_export_of(*instance, "memory"@), store),
    {
        let entry = match vm::lookup_function(instance, "main") {
            Some(f) => f,
            None => {
                return Err(ExchangeError::MissingExport { export: ExportKind::EntryPoint });
            },
        };
        let memory = match vm::lookup_memory(instance, "memory") {
            Some(m) => m,
            None => {
                return Err(ExchangeError::MissingExport { export: ExportKind::LinearMemory });
            },
        };
        if !(vm::memory_belongs(&store, &memory) && vm::function_belongs(&store, &entry)) {
            return Err(ExchangeError::StoreMismatch);
        }
        let mut store = store;
        let heap_start = vm::lookup_global_integer(&mut store, instance, "__heap_base");
        let base = choose_base_address(heap_start);
        Ok(Engine { store, memory, entry, base, ready: true })
    }

    /// The base address of this instance.
    pub fn base_address(&self) -> (r: u32)
        ensures
            r == self.base_spec(),
    {
        self.base
    }

    /// Whether the engine may still issue a call.
    pub fn ready(&self) -> (r: bool)
        ensures
            r == self.is_ready(),
    {
        self.ready
    }

    /// The current size of the guest's linear memory in bytes.
    pub fn memory_size(&self) -> (r: u64)
        requires
            self.wf(),
        ensures
            r == self.mem().len(),
    {
        vm::vm_size(&self.store, &self.memory)
    }

    /// Reads `length` bytes of the linear memory starting at `offset`,
    /// bounds-checked against the current size: a range past the end is
    /// reported, never read.
    pub fn read(&self, offset: u64, length: u32) -> (r: Result<Vec<u8>, ExchangeError>)
        requires
            self.wf(),
        ensures
            r is Ok <==> offset + length <= self.mem().len(),
            r matches Ok(b) ==> b@ == self.mem().subrange(
                offset as int,
                offset as int + length as int,
            ),
            r matches Err(e) ==> e matches ExchangeError::OutOfBounds { .. },
    {
        let size = vm::vm_size(&self.store, &self.memory);
        if offset > size || length as u64 > size - offset {
            return Err(
                ExchangeError::OutOfBounds { at: offset, need: length as u64, size },
            );
        }
        match vm::vm_read(&self.store, &self.memory, offset, length) {
            Ok(b) => Ok(b),
            Err(_) => {
                // Unreachable: the read was bounds-checked above.
                Err(ExchangeError::OutOfBounds { at: offset, need: length as u64, size })
            },
        }
    }

    /// Grows the linear memory by the whole pages that cover `byte_len`
    /// bytes, unconditionally: growth is never skipped and never shrinks, so
    /// on success the memory is at least `byte_len` bytes longer and keeps
    /// every byte it had.
    pub fn grow_for(&mut self, byte_len: u64) -> (r: Result<(), ExchangeError>)
        requires
            old(self).wf(),
            byte_len <= u32::MAX,
        ensures
            old(self).same_instance(*final(self)),
            final(self).base_spec() == old(self).base_spec(),
            final(self).wf(),
            final(self).is_ready() == old(self).is_ready(),
            r is Ok ==> final(self).mem().len() == old(self).mem().len() + pages_for_spec(
                byte_len as int,
            ) * PAGE_SIZE,
            r is Ok ==> final(self).mem().len() >= old(self).mem().len() + byte_len,
            r is Ok ==> forall|i: int|
                0 <= i < old(self).mem().len() ==> final(self).mem()[i] == old(self).mem()[i],
            r matches Err(e) ==> final(self).mem() == old(self).mem() && e matches
                ExchangeError::Grow { .. },
    {
        let pages = pages_for(byte_len);
        match vm::vm_grow(&mut self.store, &self.memory, pages) {
            Ok(()) => Ok(()),
            Err(message) => Err(ExchangeError::Grow { message }),
        }
    }

    /// Places the request envelope for `payload` at the base address: the
    /// 4-byte little-endian length prefix, then the payload bytes. The
    /// memory must already cover the write; a memory too short for it is
    /// reported and left untouched, never written past its end nor
    /// truncated.
    pub fn place_request(&mut self, payload: &Vec<u8>) -> (r: Result<(), ExchangeError>)
        requires
            old(self).wf(),
            payload@.len() + 4 <= u32::MAX,
        ensures
            old(self).same_instance(*final(self)),
            final(self).base_spec() == old(self).base_spec(),
            final(self).wf(),
            final(self).is_ready() == old(self).is_ready(),
            r is Ok <==> old(self).base_spec() + 4 + payload@.len() <= old(self).mem().len(),
            r is Ok ==> final(self).mem() == wire::place_spec(
                old(self).mem(),
                old(self).base_spec() as int,
                payload@,
            ),
            r matches Err(e) ==> final(self).mem() == old(self).mem() && e matches
                ExchangeError::OutOfBounds { .. },
    {
        let size = vm::vm_size(&self.store, &self.memory);
        let need: u64 = self.base as u64 + 4 + payload.len() as u64;
        if need > size {
            return Err(
                ExchangeError::OutOfBounds {
                    at: self.base as u64,
                    need: payload.len() as u64 + 4,
                    size,
                },
            );
        }
        let env = wire::build_envelope(payload);
        match vm::vm_write(&mut self.store, &self.memory, self.base as u64, &env) {
            Ok(()) => Ok(()),
            Err(_) => {
                // Unreachable: the write was bounds-checked above.
                Err(
                    ExchangeError::OutOfBounds {
                        at: self.base as u64,
                        need: payload.len() as u64 + 4,
                        size,
                    },
                )
            },
        }
    }

    /// Resolves a response location: reads the descriptor's two 4-byte
    /// little-endian fields at `location`, then exactly `length` bytes at
    /// `pointer`. Each of the two steps is bounds-checked against the
    /// current memory size and fails with the offending values, never
    /// reading out of bounds.
    pub fn resolve_response(&self, location: u32) -> (r: Result<Vec<u8>, ExchangeError>)
        requires
            self.wf(),
        ensures
            match r {
                Ok(out) => wire::resolve_in(self.mem(), location as int) == Some(out@),
                Err(e) => wire::resolve_in(self.mem(), location as int) is None && (e matches
                    ExchangeError::MalformedResponse { pointer, length, size } && size
                    == self.mem().len() && (if location as int + 8 > self.mem().len() {
                    pointer == location as u64 && length == 8
                } else {
                    pointer == wire::le32_at(self.mem(), location as int + 4) as u64 && length
                        == wire::le32_at(self.mem(), location as int) as u64
                })),
            },
    {
        let size = vm::vm_size(&self.store, &self.memory);
        if location as u64 + 8 > size {
            return Err(
                ExchangeError::MalformedResponse { pointer: location as u64, length: 8, size },
            );
        }
        let header = match vm::vm_read(&self.store, &self.memory, location as u64, 8) {
            Ok(b) => b,
            Err(_) => {
                // Unreachable: the descriptor read was bounds-checked above.
                return Err(
                    ExchangeError::MalformedResponse { pointer: location as u64, length: 8, size },
                );
            },
        };
        let length = wire::le_to_u32(&header, 0);
        let pointer = wire::le_to_u32(&header, 4);
        proof {
            let m = self.mem();
            let d = location as int;
            assert(header@[0] == m[d] && header@[1] == m[d + 1] && header@[2] == m[d + 2]
                && header@[3] == m[d + 3]);
            assert(header@[4] == m[d + 4] && header@[5] == m[d + 5] && header@[6] == m[d + 6]
                && header@[7] == m[d + 7]);
        }
        if pointer as u64 + length as u64 > size {
            return Err(
                ExchangeError::MalformedResponse {
                    pointer: pointer as u64,
                    length: length as u64,
                    size,
                },
            );
        }
        match vm::vm_read(&self.store, &self.memory, pointer as u64, length) {
            Ok(out) => Ok(out),
            Err(_) => {
                // Unreachable: the payload read was bounds-checked above.
                Err(
                    ExchangeError::MalformedResponse {
                        pointer: pointer as u64,
                        length: length as u64,
                        size,
                    },
                )
            },
        }
    }

    /// One exchange over already-encoded bytes: grow, place the envelope,
    /// invoke the entry point with the base address, and resolve the single
    /// integer it returns. All-or-nothing: on any failure no output is
    /// produced and the engine is spent. Exactly one exchange can be in
    /// flight, since the call holds the engine exclusively.
    pub fn run_bytes(&mut self, payload: &Vec<u8>) -> (r: Result<Vec<u8>, ExchangeError>)
        requires
            old(self).wf(),
            old(self).is_ready(),
            payload@.len() + 4 <= u32::MAX,
        ensures
            old(self).same_instance(*final(self)),
            final(self).base_spec() == old(self).base_spec(),
            final(self).wf(),
            final(self).is_ready() <==> r is Ok,
            r matches Ok(out) ==> exists|loc: u32|
                wire::resolve_in(final(self).mem(), loc as int) == Some(out@),
            r matches Err(e) ==> match e {
                ExchangeError::Grow { .. } => true,
                ExchangeError::OutOfBounds { .. } => old(self).base_spec() + 4 + payload@.len()
                    > old(self).mem().len() + pages_for_spec(payload@.len() as int + 4) * PAGE_SIZE,
                ExchangeError::Trap { .. } => true,
                ExchangeError::UnexpectedResultShape { .. } => true,
                ExchangeError::MalformedResponse { .. } => true,
                _ => false,
            },
            old(self).base_spec() + 4 + payload@.len() > old(self).mem().len() + pages_for_spec(
                payload@.len() as int + 4,
            ) * PAGE_SIZE ==> (r matches Err(e) && (e matches ExchangeError::Grow { .. }
                || e matches ExchangeError::OutOfBounds { .. })),
    {
        let env_len: u64 = payload.len() as u64 + 4;
        match self.grow_for(env_len) {
            Ok(()) => (),
            Err(e) => {
                self.ready = false;
                return Err(e);
            },
        }
        match self.place_request(payload) {
            Ok(()) => (),
            Err(e) => {
                self.ready = false;
                return Err(e);
            },
        }
        let results = match vm::vm_call(&mut self.store, &self.entry, self.base) {
            Ok(vs) => vs,
            Err(message) => {
                self.ready = false;
                return Err(ExchangeError::Trap { message });
            },
        };
        let location = match response_location(&results) {
            Ok(loc) => loc,
            Err(e) => {
                self.ready = false;
                return Err(e);
            },
        };
        match self.resolve_response(location) {
            Ok(out) => {
                proof {
                    assert(wire::resolve_in(self.mem(), location as int) == Some(out@));
                }
                Ok(out)
            },
            Err(e) => {
                self.ready = false;
                Err(e)
            },
        }
    }

    /// One exchange over a structured value: encodes the input with the
    /// codec, runs the exchange, and decodes the response payload. A codec
    /// failure on the way back is surfaced verbatim, never retried.
    pub fn run(&mut self, input: &serde_json::Value) -> (r: Result<
        serde_json::Value,
        ExchangeError,
    >)
        requires
            old(self).wf(),
            old(self).is_ready(),
        ensures
            old(self).same_instance(*final(self)),
            final(self).base_spec() == old(self).base_spec(),
            final(self).wf(),
            final(self).is_ready() <==> r is Ok,
            (r matches Err(ExchangeError::Encode { .. })) <==> vm::msgpack_of(*input) is None,
            (r matches Err(ExchangeError::OversizedRequest { .. })) <==> (vm::msgpack_of(*input)
                matches Some(b) && b.len() + 4 > u32::MAX),
            r matches Ok(v) ==> (vm::msgpack_of(*input) matches Some(b) && b.len() + 4
                <= u32::MAX) && (exists|loc: u32|
                (#[trigger] wire::resolve_in(final(self).mem(), loc as int)) matches Some(out)
                    && vm::msgpack_value_of(out) == Some(v)),
            r matches Err(e) ==> match e {
                ExchangeError::MissingExport { .. } => false,
                ExchangeError::StoreMismatch => false,
                ExchangeError::OutOfBounds { .. } => vm::msgpack_of(*input) matches Some(b)
                    && old(self).base_spec() + 4 + b.len() > old(self).mem().len()
                    + pages_for_spec(b.len() as int + 4) * PAGE_SIZE,
                _ => true,
            },
            (vm::msgpack_of(*input) matches Some(b) && b.len() + 4 <= u32::MAX && old(
                self,
            ).base_spec() + 4 + b.len() > old(self).mem().len() + pages_for_spec(
                b.len() as int + 4,
            ) * PAGE_SIZE) ==> (r matches Err(e) && (e matches ExchangeError::Grow { .. }
                || e matches ExchangeError::OutOfBounds { .. })),
    {
        let payload = match vm::encode_value(input) {
            Ok(b) => b,
            Err(message) => {
                self.ready = false;
                return Err(ExchangeError::Encode { message });
            },
        };
        if payload.len() > (u32::MAX - 4) as usize {
            self.ready = false;
            return Err(ExchangeError::OversizedRequest { length: payload.len() });
        }
        let out = match self.run_bytes(&payload) {
            Ok(b) => b,
            Err(e) => {
                return Err(e);
            },
        };
        match vm::decode_value(&out) {
            Ok(v) => {
                proof {
                    let loc = choose|loc: u32|
                        wire::resolve_in(self.mem(), loc as int) == Some(out@);
                    assert(wire::resolve_in(self.mem(), loc as int) matches Some(o)
                        && vm::msgpack_value_of(o) == Some(v));
                    assert(exists|loc2: u32|
                        (#[trigger] wire::resolve_in(self.mem(), loc2 as int)) matches Some(o)
                            && vm::msgpack_value_of(o) == Some(v));
                }
                Ok(v)
            },
            Err(message) => {
                self.ready = false;
                Err(ExchangeError::Decode { message })
            },
        }
    }
}

} // verus!
