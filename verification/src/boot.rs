//! The boot sequence: install the logger, report where the kernel's sections
//! lie, and greet at every level.

use vstd::prelude::*;
use crate::console::Stdout;
use crate::level::{Level, LevelFilter};
use crate::logger::{config_text, emitted, filter_for, init, Facade, InitError, MyLogger};
use crate::text::{hex, string_of};

verus! {

/// A range of addresses, from `start` up to but not including `end`.
#[derive(Clone, Copy, Debug, PartialEq, Eq, Structural)]
pub struct Section {
    pub start: usize,
    pub end: usize,
}

/// Where the linker placed the four sections of the kernel image.
#[derive(Clone, Copy, Debug, PartialEq, Eq, Structural)]
pub struct MemoryLayout {
    pub text: Section,
    pub data: Section,
    pub rodata: Section,
    pub bss: Section,
}

/// The message that reports one section: its name and its address range in
/// hexadecimal, closed on the left and open on the right.
pub open spec fn section_message(name: Seq<char>, section: Section) -> Seq<char> {
    name + " ["@ + hex(section.start as nat) + ", "@ + hex(section.end as nat) + ")"@
}

/// What the section report puts on the console under `filter`: one `Info`
/// record per section, in the order text, data, rodata, bss.
pub open spec fn section_report(filter: LevelFilter, layout: MemoryLayout) -> Seq<char> {
    emitted(filter, Level::Info, section_message(".text"@, layout.text)) + emitted(
        filter,
        Level::Info,
        section_message(".data"@, layout.data),
    ) + emitted(filter, Level::Info, section_message(".rodata"@, layout.rodata)) + emitted(
        filter,
        Level::Info,
        section_message(".bss"@, layout.bss),
    )
}

/// What the greeting puts on the console under `filter`: `hello world` once
/// at each level, from `Error` down to `Trace`.
pub open spec fn greeting(filter: LevelFilter) -> Seq<char> {
    emitted(filter, Level::Error, "hello world"@) + emitted(
        filter,
        Level::Warn,
        "hello world"@,
    ) + emitted(filter, Level::Info, "hello world"@) + emitted(
        filter,
        Level::Debug,
        "hello world"@,
    ) + emitted(filter, Level::Trace, "hello world"@)
}

/// Builds the message that reports one section.
pub fn section_text(name: &str, section: Section) -> (message: String)
    ensures
        message@ == section_message(name@, section),
{
    let mut scratch = Stdout::new();
    scratch.write_str(name);
    scratch.write_str(" [");
    scratch.write_hex(section.start as u64);
    scratch.write_str(", ");
    scratch.write_hex(section.end as u64);
    scratch.write_str(")");
    proof {
        assert(scratch@ =~= section_message(name@, section));
    }
    string_of(scratch.sent())
}

/// Logs the address range of each section at level `Info`.
pub fn print_section(facade: &Facade, out: &mut Stdout, layout: &MemoryLayout)
    ensures
        final(out)@ == old(out)@ + section_report(facade.max_level(), *layout),
{
    let text = section_text(".text", layout.text);
    facade.info(out, text.as_str());
    let data = section_text(".data", layout.data);
    facade.info(out, data.as_str());
    let rodata = section_text(".rodata", layout.rodata);
    facade.info(out, rodata.as_str());
    let bss = section_text(".bss", layout.bss);
    facade.info(out, bss.as_str());
    proof {
        assert(out@ =~= old(out)@ + section_report(facade.max_level(), *layout));
    }
}

/// Runs the boot sequence on an empty logger slot: installs the logger that
/// `config` selects, reports the sections and greets at every level. On a
/// slot that is filled already it fails and writes nothing. The caller shuts
/// the machine down afterwards.
pub fn rust_main(
    facade: &mut Facade,
    out: &mut Stdout,
    config: Option<&str>,
    layout: &MemoryLayout,
) -> (done: Result<(), InitError>)
    ensures
        done is Ok <==> old(facade).installed() is None,
        done is Ok ==> final(facade).installed() == Some(
            (MyLogger { filter: filter_for(config_text(config)) }),
        ),
        done is Ok ==> final(out)@ == old(out)@ + section_report(
            filter_for(config_text(config)),
            *layout,
        ) + greeting(filter_for(config_text(config))),
        done is Err ==> done == Err::<(), InitError>(InitError::AlreadyInitialized),
        done is Err ==> *final(facade) == *old(facade) && final(out)@ == old(out)@,
{
    match init(facade, config) {
        Ok(()) => {},
        Err(e) => {
            return Err(e);
        },
    }
    print_section(facade, out, layout);
    let greeting_text = "hello world";
    facade.error(out, greeting_text);
    facade.warn(out, greeting_text);
    facade.info(out, greeting_text);
    facade.debug(out, greeting_text);
    facade.trace(out, greeting_text);
    proof {
        let filter = filter_for(config_text(config));
        assert(out@ =~= old(out)@ + section_report(filter, *layout) + greeting(filter));
    }
    Ok(())
}

} // verus!
