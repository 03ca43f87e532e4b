use hypervisor::match_VMXCap;
use hypervisor::VMXCap;

#[test]
fn capability_ids_exhaustive() {
    assert_eq!(match_VMXCap(&VMXCap::PINBASED), 0);
    assert_eq!(match_VMXCap(&VMXCap::PROCBASED), 1);
    assert_eq!(match_VMXCap(&VMXCap::PROCBASED2), 2);
    assert_eq!(match_VMXCap(&VMXCap::ENTRY), 3);
    assert_eq!(match_VMXCap(&VMXCap::EXIT), 4);
    assert_eq!(match_VMXCap(&VMXCap::PREEMPTION_TIMER), 32);
}

#[test]
fn capability_ids_distinct() {
    let caps = vec![
        VMXCap::PINBASED,
        VMXCap::PROCBASED,
        VMXCap::PROCBASED2,
        VMXCap::ENTRY,
        VMXCap::EXIT,
        VMXCap::PREEMPTION_TIMER,
    ];
    for i in 0..caps.len() {
        for j in 0..caps.len() {
            if i != j {
                assert_ne!(match_VMXCap(&caps[i]), match_VMXCap(&caps[j]));
            }
        }
    }
}

#[test]
fn capability_descriptions() {
    assert_eq!(VMXCap::PINBASED.description(), "Pin-based VMX capabilities");
    assert_eq!(VMXCap::PROCBASED.description(), "Primary proc-based VMX capabilities");
    assert_eq!(VMXCap::PROCBASED2.description(), "Secondary proc-based VMX capabilities");
    assert_eq!(VMXCap::ENTRY.description(), "VM-entry VMX capabilities");
    assert_eq!(VMXCap::EXIT.description(), "VM-exit VMX capabilities");
    assert_eq!(VMXCap::PREEMPTION_TIMER.description(), "VMX preemption timer frequency");
}
