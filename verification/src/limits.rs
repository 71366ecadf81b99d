//! Static upper bounds on the shape of a contract module.

use vstd::prelude::*;

verus! {

/// Size of one linear-memory page in bytes.
pub const PAGE_SIZE: u32 = 65536;

/// Describes the upper limits on various metrics.
///
/// The values in this struct should only ever be increased for a deployed
/// chain: decreasing them would break existing contracts that are above the
/// new limits.
#[derive(Clone, Copy, PartialEq, Eq, Structural, Debug)]
pub struct Limits {
    /// The maximum number of topics supported by an event.
    pub event_topics: u32,
    /// Maximum allowed stack height in number of elements.
    ///
    /// Each element can be of one of the wasm value types, so the maximum
    /// size per element is 64 bit.
    pub stack_height: u32,
    /// Maximum number of globals a module is allowed to declare.
    ///
    /// Globals are not limited through the `stack_height`, and the linear
    /// memory limit `memory_pages` does not apply to them either.
    pub globals: u32,
    /// Maximum number of parameters a function can have.
    ///
    /// The parameter count must be limited because the cost of the stack
    /// height instrumentation for an indirectly called function scales
    /// linearly with it.
    pub parameters: u32,
    /// Maximum number of memory pages allowed for a contract.
    pub memory_pages: u32,
    /// Maximum number of elements allowed in a table.
    pub table_size: u32,
    /// Maximum number of elements that can appear as immediate value to
    /// the br_table instruction.
    pub br_table_size: u32,
    /// The maximum length of a subject in bytes used for PRNG generation.
    pub subject_len: u32,
}

impl Limits {
    /// The maximum memory size in bytes that a contract can occupy.
    pub fn max_memory_size(&self) -> (r: u32)
        requires
            self.memory_pages * PAGE_SIZE <= u32::MAX,
        ensures
            r == self.memory_pages * PAGE_SIZE,
    {
        self.memory_pages * 64 * 1024
    }
}

impl Limits {
    /// The default limits: small enough to keep instrumentation and
    /// execution overhead bounded, large enough for realistic contracts.
    pub open spec fn spec_default() -> Limits {
        Limits {
            event_topics: 4,
            stack_height: 512,
            globals: 256,
            parameters: 128,
            memory_pages: 16,
            table_size: 4096,
            br_table_size: 256,
            subject_len: 32,
        }
    }
}

impl Default for Limits {
    fn default() -> (r: Self)
        ensures
            r == Self::spec_default(),
    {
        Limits {
            event_topics: 4,
            // 512 * sizeof(i64) gives a 4k stack.
            stack_height: 512,
            globals: 256,
            parameters: 128,
            memory_pages: 16,
            // 4k function pointers (this is a count, not bytes).
            table_size: 4096,
            br_table_size: 256,
            subject_len: 32,
        }
    }
}

} // verus!
