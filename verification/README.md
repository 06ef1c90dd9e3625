# armkernel

A small preemptive kernel for one AArch64 core: a
round-robin scheduler, a page allocator, the first page tables, exception
handling with reports on a UART, and a RAM test that runs as a task.

`src/` is the kernel proper, verified with Verus. It performs no I/O. A function
that would print, store to a device or write a system register returns a
`Script` of effects instead, and takes register and memory contents as
arguments.

| module | contents |
| --- | --- |
| `text` | numbers and lines of console text |
| `effect` | operations, effects and scripts |
| `uart`, `gic`, `timer` | the devices |
| `exception`, `task`, `scheduler` | frames, tasks and round-robin scheduling |
| `memory` | the bitmap allocator of physical pages |
| `paging` | page table entries, the kernel's tables, translation registers |
| `syndrome`, `trap` | exception syndromes and the exception handlers |
| `programs`, `ram_test` | what the tasks run |
| `boot` | the start of the kernel, stage by stage |
| `*_laws` | what holds across calls |

`app/` is the machine layer: entry points, statics, inline assembly and a heap
for the texts in flight. It is type-checked only, not built for a board: the
library links `std`, so a board build has to make it `no_std` first. The
exception vector, the reset code and the linker script are not part of this
repository; they supply `exception_vector`, `_kernel_start` and `_kernel_end`,
and enter `rust_start`.

`tests/` holds the tests of the library.
