//! End-to-end command scenarios driven through the dispatcher.

use rmm::granule::GranuleState;
use rmm::realm::State;
use rmm::rmi::CMD_DATA_CREATE;
use rmm::rmi::CMD_DATA_DESTROY;
use rmm::rmi::CMD_GRANULE_DELEGATE;
use rmm::rmi::CMD_GRANULE_UNDELEGATE;
use rmm::rmi::CMD_RTT_INIT_RIPAS;
use rmm::rmi::CMD_RTT_MAP_UNPROTECTED;
use rmm::rmi::CMD_RTT_READ_ENTRY;
use rmm::rmi::CMD_VERSION;
use rmm::rmi::CMD_VM_CREATE;
use rmm::rmi::CMD_VM_DESTROY;
use rmm::rmi::CMD_VM_RESUME;
use rmm::rmi::CMD_VM_SWITCH;
use rmm::rmi::IdleAction;
use rmm::rmi::Monitor;
use rmm::stage2::MAP_PROT_NS_PAS;
use rmm::ABI_VERSION;
use rmm::ERROR_INPUT;
use rmm::RET_FAIL;
use rmm::SUCCESS;

#[test]
fn version_reports_abi() {
    let mut m = Monitor::new();
    let ret = m.dispatch(CMD_VERSION, [0, 0, 0, 0]);
    assert_eq!(ret, [SUCCESS, ABI_VERSION, 0, 0]);
}

#[test]
fn vm_create_destroy_ids() {
    let mut m = Monitor::new();
    let ret = m.dispatch(CMD_VM_CREATE, [2, 0, 0, 0]);
    assert_eq!(ret[0], 0);
    let ret = m.dispatch(CMD_VM_CREATE, [1, 0, 0, 0]);
    assert_eq!(ret[0], 1);
    let ret = m.dispatch(CMD_VM_DESTROY, [0, 0, 0, 0]);
    assert_eq!(ret[0], 0);
    let ret = m.dispatch(CMD_VM_DESTROY, [0, 0, 0, 0]);
    assert_eq!(ret[0], usize::MAX);
}

#[test]
fn vm_create_builds_vcpus() {
    let mut m = Monitor::new();
    let id = m.dispatch(CMD_VM_CREATE, [2, 0, 0, 0])[0];
    let realm = m.registry.get(id).expect("realm must be live");
    assert_eq!(realm.vcpus.len(), 2);
    for v in realm.vcpus.iter() {
        assert_eq!(v.owner, id);
    }
}

#[test]
fn granule_delegate_undelegate_round_trip() {
    let mut m = Monitor::new();
    let pa: usize = 0x4000_0000;
    let ret = m.dispatch(CMD_GRANULE_DELEGATE, [pa, 0, 0, 0]);
    assert_eq!(ret[0], SUCCESS);
    assert_eq!(m.granules.state_of(pa), GranuleState::Delegated);
    let ret = m.dispatch(CMD_GRANULE_UNDELEGATE, [pa, 0, 0, 0]);
    assert_eq!(ret[0], SUCCESS);
    assert_eq!(m.granules.state_of(pa), GranuleState::Undelegated);
}

#[test]
fn granule_delegate_twice_fails() {
    let mut m = Monitor::new();
    let pa: usize = 0x4000_0000;
    assert_eq!(m.dispatch(CMD_GRANULE_DELEGATE, [pa, 0, 0, 0])[0], SUCCESS);
    assert_eq!(m.dispatch(CMD_GRANULE_DELEGATE, [pa, 0, 0, 0])[0], RET_FAIL);
    assert_eq!(m.granules.state_of(pa), GranuleState::Delegated);
}

#[test]
fn granule_misaligned_is_input_error() {
    let mut m = Monitor::new();
    assert_eq!(m.dispatch(CMD_GRANULE_DELEGATE, [0x4000_0001, 0, 0, 0])[0], ERROR_INPUT);
    assert_eq!(m.dispatch(CMD_GRANULE_UNDELEGATE, [0x4000_0001, 0, 0, 0])[0], ERROR_INPUT);
}

#[test]
fn granule_undelegate_untracked_is_input_error() {
    let mut m = Monitor::new();
    assert_eq!(m.dispatch(CMD_GRANULE_UNDELEGATE, [0x4000_0000, 0, 0, 0])[0], ERROR_INPUT);
}

fn monitor_with_new_realm_and_data_page() -> (Monitor, usize, usize, usize) {
    let mut m = Monitor::new();
    let rid = m.dispatch(CMD_VM_CREATE, [1, 0, 0, 0])[0];
    let target: usize = 0x5000_0000;
    let src: usize = 0x6000_0000;
    assert_eq!(m.dispatch(CMD_GRANULE_DELEGATE, [target, 0, 0, 0])[0], SUCCESS);
    m.mem.fill_page(src, 0xA5);
    (m, rid, target, src)
}

#[test]
fn data_create_copies_and_maps() {
    let (mut m, rid, target, src) = monitor_with_new_realm_and_data_page();
    let ipa: usize = 0x1000;
    let ret = m.dispatch(CMD_DATA_CREATE, [target, rid, ipa, src]);
    assert_eq!(ret[0], SUCCESS);
    assert_eq!(m.granules.state_of(target), GranuleState::Data);
    let realm = m.registry.get(rid).expect("realm must be live");
    assert_eq!(realm.s2.lookup(ipa), Some((target, 0)));
    let page = m.mem.read_page(target);
    assert_eq!(page.len(), 4096);
    for b in page.iter() {
        assert_eq!(*b, 0xA5);
    }
}

#[test]
fn data_create_rejects_realm_not_new() {
    let (mut m, rid, target, src) = monitor_with_new_realm_and_data_page();
    let i = m.registry.index_of(rid).expect("realm must be live");
    m.registry.realms[i].state = State::Active;
    let ret = m.dispatch(CMD_DATA_CREATE, [target, rid, 0x1000, src]);
    assert_eq!(ret[0], RET_FAIL);
    assert_eq!(m.granules.state_of(target), GranuleState::Delegated);
}

#[test]
fn data_create_rejects_undelegated_target() {
    let mut m = Monitor::new();
    let rid = m.dispatch(CMD_VM_CREATE, [1, 0, 0, 0])[0];
    let ret = m.dispatch(CMD_DATA_CREATE, [0x7000_0000, rid, 0x1000, 0x6000_0000]);
    assert_eq!(ret[0], ERROR_INPUT);
}

#[test]
fn data_create_rejects_misaligned_ipa() {
    let (mut m, rid, target, src) = monitor_with_new_realm_and_data_page();
    let ret = m.dispatch(CMD_DATA_CREATE, [target, rid, 0x1001, src]);
    assert_eq!(ret[0], ERROR_INPUT);
}

#[test]
fn data_create_unknown_realm_is_input_error() {
    let (mut m, _rid, target, src) = monitor_with_new_realm_and_data_page();
    let ret = m.dispatch(CMD_DATA_CREATE, [target, 7, 0x1000, src]);
    assert_eq!(ret[0], ERROR_INPUT);
}

#[test]
fn data_destroy_returns_granule_and_evicts() {
    let (mut m, rid, target, src) = monitor_with_new_realm_and_data_page();
    let ipa: usize = 0x1000;
    assert_eq!(m.dispatch(CMD_DATA_CREATE, [target, rid, ipa, src])[0], SUCCESS);
    let ret = m.dispatch(CMD_DATA_DESTROY, [target, 0, 0, 0]);
    assert_eq!(ret[0], SUCCESS);
    assert_eq!(m.granules.state_of(target), GranuleState::Delegated);
    let realm = m.registry.get(rid).expect("realm must be live");
    assert_eq!(realm.s2.lookup(ipa), None);
}

#[test]
fn data_destroy_untracked_is_input_error() {
    let mut m = Monitor::new();
    assert_eq!(m.dispatch(CMD_DATA_DESTROY, [0x5000_0000, 0, 0, 0])[0], ERROR_INPUT);
}

#[test]
fn rtt_map_unprotected_sets_ns_bit() {
    let mut m = Monitor::new();
    let rid = m.dispatch(CMD_VM_CREATE, [1, 0, 0, 0])[0];
    let ipa: usize = 0x8000_0000;
    let ns_pa: usize = 0x9000_0000;
    let ret = m.dispatch(CMD_RTT_MAP_UNPROTECTED, [rid, ipa, 3, ns_pa]);
    assert_eq!(ret[0], SUCCESS);
    let realm = m.registry.get(rid).expect("realm must be live");
    let (pa, prot) = realm.s2.lookup(ipa).expect("mapping must exist");
    assert_eq!(pa, ns_pa);
    assert_ne!(prot & MAP_PROT_NS_PAS, 0);
}

#[test]
fn rtt_map_unprotected_is_idempotent() {
    let mut m = Monitor::new();
    let rid = m.dispatch(CMD_VM_CREATE, [1, 0, 0, 0])[0];
    let args = [rid, 0x8000_0000, 3, 0x9000_0000];
    assert_eq!(m.dispatch(CMD_RTT_MAP_UNPROTECTED, args)[0], SUCCESS);
    assert_eq!(m.dispatch(CMD_RTT_MAP_UNPROTECTED, args)[0], SUCCESS);
    let realm = m.registry.get(rid).expect("realm must be live");
    assert_eq!(realm.s2.lookup(0x8000_0000), Some((0x9000_0000, MAP_PROT_NS_PAS)));
}

#[test]
fn rtt_map_unprotected_misaligned_is_input_error() {
    let mut m = Monitor::new();
    let rid = m.dispatch(CMD_VM_CREATE, [1, 0, 0, 0])[0];
    assert_eq!(m.dispatch(CMD_RTT_MAP_UNPROTECTED, [rid, 0x8000_0100, 3, 0x9000_0000])[0], ERROR_INPUT);
}

#[test]
fn rtt_stubs_reply_success() {
    let mut m = Monitor::new();
    assert_eq!(m.dispatch(CMD_RTT_INIT_RIPAS, [0, 0, 0, 0])[0], SUCCESS);
    assert_eq!(m.dispatch(CMD_RTT_READ_ENTRY, [0, 0, 0, 0])[0], SUCCESS);
}

#[test]
fn vm_resume_replies_success() {
    let mut m = Monitor::new();
    assert_eq!(m.dispatch(CMD_VM_RESUME, [0, 0, 0, 0])[0], SUCCESS);
}

#[test]
fn unknown_code_falls_through() {
    let mut m = Monitor::new();
    assert_eq!(m.dispatch(0x1234, [0, 0, 0, 0])[0], RET_FAIL);
}

#[test]
fn vm_switch_needs_active_realm() {
    let mut m = Monitor::new();
    let rid = m.dispatch(CMD_VM_CREATE, [1, 0, 0, 0])[0];
    assert_eq!(m.dispatch(CMD_VM_SWITCH, [rid, 0, 0, 0])[0], ERROR_INPUT);
    let i = m.registry.index_of(rid).expect("realm must be live");
    m.registry.realms[i].state = State::Active;
    assert_eq!(m.dispatch(CMD_VM_SWITCH, [rid, 0, 0, 0])[0], SUCCESS);
    assert_eq!(m.dispatch(CMD_VM_SWITCH, [rid, 5, 0, 0])[0], ERROR_INPUT);
    assert_eq!(m.dispatch(CMD_VM_SWITCH, [9, 0, 0, 0])[0], ERROR_INPUT);
}

#[test]
fn idle_hook_enters_realm_and_detaches_dead_vcpu() {
    let mut m = Monitor::new();
    assert_eq!(m.idle_step(), IdleAction::Wait);
    let rid = m.dispatch(CMD_VM_CREATE, [1, 0, 0, 0])[0];
    let i = m.registry.index_of(rid).expect("realm must be live");
    m.registry.realms[i].state = State::Active;
    assert_eq!(m.dispatch(CMD_VM_SWITCH, [rid, 0, 0, 0])[0], SUCCESS);
    assert_eq!(m.idle_step(), IdleAction::EnterRealm(rid, 0));
    assert_eq!(m.dispatch(CMD_VM_DESTROY, [rid, 0, 0, 0])[0], 0);
    assert!(m.current_vm_dead());
    assert_eq!(m.idle_step(), IdleAction::Detached);
    assert_eq!(m.current(), None);
    assert_eq!(m.idle_step(), IdleAction::Wait);
}
