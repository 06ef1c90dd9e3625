//! A small preemptive kernel for one AArch64 core.
//!
//! The kernel decides here and acts elsewhere. What only computes, the
//! scheduler, the page allocator, the page tables and the texts, is code on
//! plain values. What acts on the machine gives back a script of effects for
//! the machine layer to perform, and takes what the machine read as arguments.
pub mod boot;
pub mod boot_laws;
pub mod effect;
pub mod exception;
pub mod gic;
pub mod memory;
pub mod memory_laws;
pub mod operation_laws;
pub mod paging;
pub mod paging_laws;
pub mod programs;
pub mod ram_test;
pub mod ram_test_laws;
pub mod scheduler;
pub mod scheduler_laws;
pub mod switch_laws;
pub mod syndrome;
pub mod task;
pub mod text;
pub mod text_laws;
pub mod timer;
pub mod trap;
pub mod trap_laws;
pub mod uart;
