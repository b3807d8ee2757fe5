//! Unit tests of the monitor's parts: granule table, stage-2 translator,
//! physical-memory model, firmware gateway, registry, and the REC block.

use rmm::granule::GranuleState;
use rmm::granule::GranuleTable;
use rmm::granule::Mm;
use rmm::mem::PhysMemory;
use rmm::realm::Context;
use rmm::realm::Realm;
use rmm::realm::State;
use rmm::realm::Vcpu;
use rmm::rec::Rec;
use rmm::rec::Ripas;
use rmm::registry::Registry;
use rmm::smc::Firmware;
use rmm::smc::RMM_REQ_COMPLETE;
use rmm::smc::SMC_MARK_NONSECURE;
use rmm::smc::SMC_MARK_REALM;
use rmm::stage2::MapProt;
use rmm::stage2::Stage2Table;
use rmm::stage2::MAP_PROT_NS_PAS;
use rmm::RmmError;
use rmm::RET_FAIL;
use rmm::SUCCESS;

#[test]
fn granule_find_and_transitions() {
    let mut t = GranuleTable::new();
    let mut mm = Mm::new();
    assert_eq!(t.find(0x1000, GranuleState::Delegated), Err(RmmError::NotFound));
    assert_eq!(t.set_state(0x1000, GranuleState::Delegated, &mut mm), Ok(()));
    assert_eq!(t.find(0x1000, GranuleState::Delegated), Ok(GranuleState::Delegated));
    assert_eq!(t.find(0x1000, GranuleState::Data), Err(RmmError::NotFound));
    // Skipping the delegated state is outside the permitted graph.
    assert_eq!(t.set_state(0x2000, GranuleState::Data, &mut mm), Err(RmmError::InputError));
    assert_eq!(t.set_state(0x1000, GranuleState::Rtt, &mut mm), Ok(()));
    assert_eq!(t.set_state(0x1000, GranuleState::Data, &mut mm), Err(RmmError::InputError));
    assert_eq!(t.set_state(0x1000, GranuleState::Delegated, &mut mm), Ok(()));
    assert_eq!(t.set_state(0x1000, GranuleState::Undelegated, &mut mm), Ok(()));
    assert_eq!(t.state_of(0x1000), GranuleState::Undelegated);
}

#[test]
fn stage2_map_lookup_unmap() {
    let mut s2 = Stage2Table::new(0);
    assert_eq!(s2.realm_id(), 0);
    assert_eq!(s2.lookup(0x1000), None);
    // A two-granule range maps both pages at the right offsets.
    assert_eq!(s2.map(0x1000, 0x5000, 8192, 0), Ok(()));
    assert_eq!(s2.lookup(0x1000), Some((0x5000, 0)));
    assert_eq!(s2.lookup(0x2000), Some((0x6000, 0)));
    assert_eq!(s2.lookup(0x3000), None);
    // Unmapping the first granule only leaves the second.
    assert_eq!(s2.unmap(0x1000, 4096), Ok(()));
    assert_eq!(s2.lookup(0x1000), None);
    assert_eq!(s2.lookup(0x2000), Some((0x6000, 0)));
    // Unmapping is idempotent over identical arguments.
    assert_eq!(s2.unmap(0x1000, 4096), Ok(()));
    assert_eq!(s2.lookup(0x2000), Some((0x6000, 0)));
}

#[test]
fn stage2_rejects_bad_ranges() {
    let mut s2 = Stage2Table::new(1);
    assert_eq!(s2.map(0x1001, 0x5000, 4096, 0), Err(RmmError::InputError));
    assert_eq!(s2.map(0x1000, 0x5001, 4096, 0), Err(RmmError::InputError));
    assert_eq!(s2.map(0x1000, 0x5000, 100, 0), Err(RmmError::InputError));
    assert_eq!(s2.unmap(0x1000, 100), Err(RmmError::InputError));
    assert_eq!(s2.map(usize::MAX - 4095, 0x5000, 8192, 0), Err(RmmError::InputError));
}

#[test]
fn map_prot_bits() {
    let mut p = MapProt::new(0);
    assert_eq!(p.get(), 0);
    assert!(!p.is_set(MAP_PROT_NS_PAS));
    p.set_bit(MAP_PROT_NS_PAS);
    assert_eq!(p.get(), 1);
    assert!(p.is_set(MAP_PROT_NS_PAS));
}

#[test]
fn memory_fill_copy_read() {
    let mut mem = PhysMemory::new();
    // An unwritten page reads as zeroes.
    let page = mem.read_page(0x9000);
    assert_eq!(page.len(), 4096);
    assert!(page.iter().all(|b| *b == 0));
    mem.fill_page(0x9000, 0x5A);
    mem.copy_page(0x9000, 0xA000);
    let copy = mem.read_page(0xA000);
    assert_eq!(copy.len(), 4096);
    assert!(copy.iter().all(|b| *b == 0x5A));
}

#[test]
fn firmware_marking() {
    let mut fw = Firmware::new();
    assert_eq!(fw.mark_realm(0x4000), SUCCESS);
    assert_eq!(fw.mark_realm(0x4000), RET_FAIL);
    assert_eq!(fw.mark_non_secure(0x4000), SUCCESS);
    assert_eq!(fw.mark_non_secure(0x4000), RET_FAIL);
    assert_eq!(fw.call(SMC_MARK_REALM, [0x8000, 0, 0, 0]), [SUCCESS, 0, 0, 0]);
    assert_eq!(fw.call(SMC_MARK_NONSECURE, [0x8000, 0, 0, 0]), [SUCCESS, 0, 0, 0]);
    assert_eq!(fw.call(RMM_REQ_COMPLETE, [0, 0, 0, 0]), [SUCCESS, 0, 0, 0]);
    assert_eq!(fw.call(0x999, [0, 0, 0, 0]), [RET_FAIL, 0, 0, 0]);
}

#[test]
fn registry_ids_are_not_recycled() {
    let mut reg = Registry::empty();
    assert_eq!(reg.new(1), 0);
    assert_eq!(reg.new(1), 1);
    assert_eq!(reg.remove(1), Ok(()));
    assert_eq!(reg.remove(1), Err(RmmError::NotFound));
    // The freed id is not handed out again.
    assert_eq!(reg.new(1), 2);
    assert!(reg.get(1).is_none());
    assert_eq!(reg.get(2).map(|r| r.id), Some(2));
}

#[test]
fn realm_owns_its_vcpus() {
    let realm = Realm::new(7, 3);
    assert_eq!(realm.id, 7);
    assert_eq!(realm.state, State::New);
    assert_eq!(realm.vcpus.len(), 3);
    for v in realm.vcpus.iter() {
        assert_eq!(v.owner, 7);
    }
    assert!(realm.at_state(State::New));
}

#[test]
fn vcpu_context_registers() {
    let mut v = Vcpu::new(3);
    assert_eq!(v.owner, 3);
    assert_eq!(v.context.get_gp(0), 0);
    v.context.set_gp(0, 0xDEAD);
    assert_eq!(v.context.get_gp(0), 0xDEAD);
    let c = Context::new();
    assert_eq!(c.elr, 0);
    assert_eq!(c.spsr, 0);
}

#[test]
fn rec_init_and_ripas_cursor() {
    let mut rec = Rec::default();
    rec.init(0x8000, 5, State::New, 2);
    assert_eq!(rec.id(), 2);
    assert_eq!(rec.owner(), 0x8000);
    assert_eq!(rec.ripas_state(), 0);
    assert_eq!(rec.ripas_end(), 0);
    rec.set_ripas(0x1000, 0x3000, 0x1000, 1);
    assert_eq!(rec.ripas_addr(), 0x1000);
    assert_eq!(rec.ripas_state(), 1);
    assert_eq!(rec.ripas_end(), 0x3000);
    rec.inc_ripas_addr(0x1000);
    assert_eq!(rec.ripas_addr(), 0x2000);
    let r = Ripas { start: 0, end: 0, addr: 0, state: 0 };
    assert_eq!(r.addr, 0);
}
