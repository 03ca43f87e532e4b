use hypervisor::match_MemPerm;
use hypervisor::MemPerm;
use hypervisor::HV_MEMORY_EXEC;
use hypervisor::HV_MEMORY_READ;
use hypervisor::HV_MEMORY_WRITE;

#[test]
fn underlying_flags() {
    assert_eq!(HV_MEMORY_READ, 1);
    assert_eq!(HV_MEMORY_WRITE, 2);
    assert_eq!(HV_MEMORY_EXEC, 4);
}

#[test]
fn composed_flags_exhaustive() {
    assert_eq!(match_MemPerm(&MemPerm::Read), 1);
    assert_eq!(match_MemPerm(&MemPerm::Write), 3);
    assert_eq!(match_MemPerm(&MemPerm::Exec), 4);
    assert_eq!(match_MemPerm(&MemPerm::ExecAndWrite), 7);
    assert_eq!(match_MemPerm(&MemPerm::ExecAndRead), 5);
}

#[test]
fn write_intents_include_read() {
    assert_ne!(match_MemPerm(&MemPerm::Write) & HV_MEMORY_READ, 0);
    assert_ne!(match_MemPerm(&MemPerm::ExecAndWrite) & HV_MEMORY_READ, 0);
}

#[test]
fn read_intent_excludes_write_and_exec() {
    assert_eq!(match_MemPerm(&MemPerm::Read) & HV_MEMORY_WRITE, 0);
    assert_eq!(match_MemPerm(&MemPerm::Read) & HV_MEMORY_EXEC, 0);
}

#[test]
fn composition_is_idempotent() {
    let intents = vec![
        MemPerm::Read,
        MemPerm::Write,
        MemPerm::Exec,
        MemPerm::ExecAndWrite,
        MemPerm::ExecAndRead,
    ];
    for intent in intents {
        let once = match_MemPerm(&intent);
        let twice = match_MemPerm(&intent);
        assert_eq!(once, twice);
        assert_eq!(once | once, once);
    }
}
