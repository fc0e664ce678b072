use vstd::prelude::*;
use vstd::string::StringSliceAdditionalSpecFns;

use crate::console::{hex_text, log_line, Console, Level};
use crate::failure::{failure_text, write_failure_text, FailureRecord};
use crate::layout::{AddressRange, MemoryLayout};
use crate::memory::{clear_bss, Memory};

verus! {

/// How far the boot sequence has come. The stages follow one another in
/// this order and none is skipped; `Halted` is terminal.
#[derive(Clone, Copy, Debug, PartialEq, Eq, Structural)]
pub enum BootStage {
    /// The entry trampoline has handed over with a valid stack.
    Entered,
    /// The uninitialized-data range reads as zero.
    MemoryClear,
    /// The memory layout has been reported on the console.
    Reporting,
    /// A fatal failure was reported and shutdown was requested.
    Halted,
}

/// The machine as the boot code sees it. Its stage only moves through the
/// boot steps below, so no step can be skipped or repeated.
pub struct Machine {
    memory: Memory,
    console: Console,
    stage: BootStage,
}

/// Payload of the report line for one range: `<label> [<start>, <end>)`.
pub open spec fn range_text(label: Seq<u8>, r: AddressRange) -> Seq<u8> {
    label + " [".spec_bytes() + hex_text(r.start as nat) + ", ".spec_bytes() + hex_text(
        r.end as nat,
    ) + ")".spec_bytes()
}

/// The five report lines for `layout`, in the order text, read-only data,
/// data, boot stack, uninitialized data.
pub open spec fn layout_report(layout: MemoryLayout) -> Seq<u8> {
    log_line(Level::Info, range_text(".text".spec_bytes(), layout.text)) + log_line(
        Level::Info,
        range_text(".rodata".spec_bytes(), layout.rodata),
    ) + log_line(Level::Info, range_text(".data".spec_bytes(), layout.data)) + log_line(
        Level::Info,
        range_text("boot_stack".spec_bytes(), layout.stack),
    ) + log_line(Level::Info, range_text(".bss".spec_bytes(), layout.bss))
}

/// The error line that ends this minimal boot sequence.
pub open spec fn shutdown_line() -> Seq<u8> {
    log_line(Level::Error, "Panicked: ".spec_bytes() + "Shutdown machine!".spec_bytes())
}

fn report_range(console: &mut Console, label: &str, r: AddressRange)
    ensures
        final(console)@ == old(console)@ + log_line(Level::Info, range_text(label.spec_bytes(), r)),
{
    console.begin_line(Level::Info);
    console.write_str(label);
    console.write_str(" [");
    console.write_hex(r.start);
    console.write_str(", ");
    console.write_hex(r.end);
    console.write_str(")");
    console.end_line();
    assert(console@ =~= old(console)@ + log_line(
        Level::Info,
        range_text(label.spec_bytes(), r),
    ));
}

impl Machine {
    /// The memory window of the machine.
    pub closed spec fn spec_memory(&self) -> Memory {
        self.memory
    }

    /// The console of the machine.
    pub closed spec fn spec_console(&self) -> Console {
        self.console
    }

    /// The boot stage reached so far.
    pub closed spec fn spec_stage(&self) -> BootStage {
        self.stage
    }

    /// The memory window of the machine.
    pub fn memory(&self) -> (r: &Memory)
        ensures
            *r == self.spec_memory(),
    {
        &self.memory
    }

    /// The console of the machine.
    pub fn console(&self) -> (r: &Console)
        ensures
            *r == self.spec_console(),
    {
        &self.console
    }

    /// The boot stage reached so far.
    pub fn stage(&self) -> (r: BootStage)
        ensures
            r == self.spec_stage(),
    {
        self.stage
    }

    /// A machine just entered from the trampoline, with nothing written on
    /// its console.
    pub fn new(memory: Memory) -> (m: Machine)
        ensures
            m.spec_memory() == memory,
            m.spec_console()@ == Seq::<u8>::empty(),
            m.spec_stage() == BootStage::Entered,
    {
        Machine { memory, console: Console::new(), stage: BootStage::Entered }
    }

    /// Writes one log line, unless the machine has halted: after the
    /// failure handler has run nothing more reaches the console.
    pub fn log(&mut self, level: Level, payload: &[u8])
        ensures
            final(self).spec_memory() == old(self).spec_memory(),
            final(self).spec_stage() == old(self).spec_stage(),
            old(self).spec_stage() == BootStage::Halted
                ==> final(self).spec_console()@ == old(self).spec_console()@,
            old(self).spec_stage() != BootStage::Halted
                ==> final(self).spec_console()@ == old(self).spec_console()@
                + log_line(level, payload@),
    {
        if self.stage != BootStage::Halted {
            self.console.log(level, payload);
        }
    }

    /// Zeroes the uninitialized-data range of `layout`. Returns the number
    /// of bytes written.
    pub fn clear_memory(&mut self, layout: &MemoryLayout) -> (writes: usize)
        requires
            old(self).spec_stage() == BootStage::Entered,
            old(self).spec_memory().wf(),
            old(self).spec_memory().covers(layout.bss),
        ensures
            final(self).spec_stage() == BootStage::MemoryClear,
            final(self).spec_console()@ == old(self).spec_console()@,
            final(self).spec_memory().base == old(self).spec_memory().base,
            final(self).spec_memory().bytes@.len() == old(self).spec_memory().bytes@.len(),
            forall|a: int|
                layout.bss.contains(a) ==> #[trigger] final(self).spec_memory().byte_at(a) == 0,
            forall|a: int|
                old(self).spec_memory().holds(a) && !layout.bss.contains(a)
                    ==> #[trigger] final(self).spec_memory().byte_at(a)
                    == old(self).spec_memory().byte_at(a),
            writes == layout.bss.len(),
    {
        let writes = clear_bss(&mut self.memory, layout.bss);
        self.stage = BootStage::MemoryClear;
        writes
    }

    /// Reports the five ranges of `layout` on the console, one line each.
    pub fn report_layout(&mut self, layout: &MemoryLayout)
        requires
            old(self).spec_stage() == BootStage::MemoryClear,
        ensures
            final(self).spec_stage() == BootStage::Reporting,
            final(self).spec_memory() == old(self).spec_memory(),
            final(self).spec_console()@ == old(self).spec_console()@ + layout_report(*layout),
    {
        report_range(&mut self.console, ".text", layout.text);
        report_range(&mut self.console, ".rodata", layout.rodata);
        report_range(&mut self.console, ".data", layout.data);
        report_range(&mut self.console, "boot_stack", layout.stack);
        report_range(&mut self.console, ".bss", layout.bss);
        self.stage = BootStage::Reporting;
        assert(self.console@ =~= old(self).spec_console()@ + layout_report(*layout));
    }

    /// The failure handler: reports `rec` as one error line and halts the
    /// machine. On a machine that has already halted it does nothing.
    pub fn handle_failure(&mut self, rec: &FailureRecord)
        ensures
            final(self).spec_memory() == old(self).spec_memory(),
            final(self).spec_stage() == BootStage::Halted,
            old(self).spec_stage() == BootStage::Halted
                ==> final(self).spec_console()@ == old(self).spec_console()@,
            old(self).spec_stage() != BootStage::Halted
                ==> final(self).spec_console()@ == old(self).spec_console()@
                + log_line(Level::Error, failure_text(*rec)),
    {
        if self.stage != BootStage::Halted {
            self.console.begin_line(Level::Error);
            write_failure_text(&mut self.console, rec);
            self.console.end_line();
            assert(self.console@ =~= old(self).spec_console()@ + log_line(
                Level::Error,
                failure_text(*rec),
            ));
            self.stage = BootStage::Halted;
        }
    }
}

/// The boot sequence of this minimal image: zero the uninitialized data,
/// report the layout, then raise a deliberate fatal failure, which halts the
/// machine.
pub fn rust_main(machine: &mut Machine, layout: &MemoryLayout)
    requires
        old(machine).spec_stage() == BootStage::Entered,
        old(machine).spec_memory().wf(),
        old(machine).spec_memory().covers(layout.bss),
    ensures
        final(machine).spec_stage() == BootStage::Halted,
        final(machine).spec_memory().base == old(machine).spec_memory().base,
        final(machine).spec_memory().bytes@.len() == old(machine).spec_memory().bytes@.len(),
        forall|a: int|
            layout.bss.contains(a) ==> #[trigger] final(machine).spec_memory().byte_at(a) == 0,
        forall|a: int|
            old(machine).spec_memory().holds(a) && !layout.bss.contains(a)
                ==> #[trigger] final(machine).spec_memory().byte_at(a)
                == old(machine).spec_memory().byte_at(a),
        final(machine).spec_console()@ == old(machine).spec_console()@ + layout_report(*layout)
            + shutdown_line(),
{
    machine.clear_memory(layout);
    machine.report_layout(layout);
    let failure = FailureRecord::with_message("Shutdown machine!");
    machine.handle_failure(&failure);
}

} // verus!
