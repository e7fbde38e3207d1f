use vmm_api::handlers::{attach_drive, by_id, drives_for_vm, start_vm, stop_vm, Payload, Status};
use vmm_api::store::{AttachedDrive, VmStore};
use vmm_api::vm::{default_kernel_params, EntityType, ModelError, NetworkMode, NewVm, Vm};

const KERNEL: u128 = 0x1111_2222_3333_4444_5555_6666_7777_8888;

fn request(mode: Option<NetworkMode>, address: Option<&str>, params: Option<&str>) -> NewVm {
    NewVm {
        name: String::from("web"),
        vcpu: 2,
        memory: 512,
        kernel: KERNEL,
        network_mode: mode,
        address: address.map(String::from),
        kernel_params: params.map(String::from),
    }
}

#[test]
fn network_mode_encodings() {
    assert_eq!(NetworkMode::Dhcp.as_str(), "dhcp");
    assert_eq!(NetworkMode::StaticIp.as_str(), "static_ip");
    assert_eq!(NetworkMode::from_str("dhcp"), Ok(NetworkMode::Dhcp));
    assert_eq!(NetworkMode::from_str("static_ip"), Ok(NetworkMode::StaticIp));
    assert_eq!(NetworkMode::from_str("none"), Err(()));
    assert_eq!(NetworkMode::from_str("DHCP"), Err(()));
    assert_eq!(NetworkMode::from_str(""), Err(()));
}

#[test]
fn normalize_without_network_mode() {
    let vm = Vm::from_new_with_id(&request(None, Some("10.0.0.9"), None), 7).unwrap();
    assert_eq!(vm.id, 7);
    assert_eq!(vm.name, "web");
    assert_eq!(vm.status, 0);
    assert_eq!(vm.host_id, None);
    assert_eq!(vm.vcpu, 2);
    assert_eq!(vm.memory, 512);
    assert_eq!(vm.kernel, KERNEL);
    assert_eq!(vm.network_mode, None);
    assert_eq!(vm.address, Some(String::new()));
    assert_eq!(vm.kernel_params, "console=ttyS0 reboot=k panic=1 pci=off");
}

#[test]
fn normalize_dhcp_discards_address() {
    let vm = Vm::from_new_with_id(&request(Some(NetworkMode::Dhcp), Some("10.0.0.9"), None), 1)
        .unwrap();
    assert_eq!(vm.network_mode, Some(String::from("dhcp")));
    assert_eq!(vm.address, Some(String::new()));
}

#[test]
fn normalize_static_ip_keeps_address() {
    let vm = Vm::from_new_with_id(
        &request(Some(NetworkMode::StaticIp), Some("192.168.122.100"), None),
        1,
    )
    .unwrap();
    assert_eq!(vm.network_mode, Some(String::from("static_ip")));
    assert_eq!(vm.address, Some(String::from("192.168.122.100")));
}

#[test]
fn normalize_static_ip_without_address_fails() {
    let r = Vm::from_new_with_id(&request(Some(NetworkMode::StaticIp), None, None), 1);
    assert_eq!(r.unwrap_err(), ModelError::MissingAddress);
    let r = Vm::from_new(&request(Some(NetworkMode::StaticIp), None, None));
    assert_eq!(r.unwrap_err(), ModelError::MissingAddress);
}

#[test]
fn normalize_keeps_empty_kernel_params_verbatim() {
    let vm = Vm::from_new_with_id(&request(None, None, Some("")), 1).unwrap();
    assert_eq!(vm.kernel_params, "");
    let vm = Vm::from_new_with_id(&request(None, None, Some("ip=1.1.1.1")), 1).unwrap();
    assert_eq!(vm.kernel_params, "ip=1.1.1.1");
    assert_eq!(default_kernel_params(), "console=ttyS0 reboot=k panic=1 pci=off");
}

#[test]
fn generated_ids_differ() {
    let a = Vm::from_new(&request(None, None, None)).unwrap();
    let b = Vm::from_new(&request(None, None, None)).unwrap();
    assert_ne!(a.id, b.id);
    assert_eq!(a.status, 0);
}

#[test]
fn insert_then_get_returns_normalized_record() {
    let mut store = VmStore::new();
    let nv = request(Some(NetworkMode::Dhcp), Some("1.2.3.4"), Some("quiet"));
    let id = Vm::insert(&nv, &mut store).unwrap();
    let got = Vm::by_id(id, &store).unwrap();
    let expected = Vm::from_new_with_id(&nv, id).unwrap();
    assert_eq!(got.id, expected.id);
    assert_eq!(got.name, expected.name);
    assert_eq!(got.network_mode, expected.network_mode);
    assert_eq!(got.address, expected.address);
    assert_eq!(got.kernel_params, expected.kernel_params);
    assert_eq!(got.kernel, expected.kernel);
}

#[test]
fn insert_with_taken_id_fails() {
    let mut store = VmStore::new();
    assert_eq!(Vm::insert_with_id(&request(None, None, None), 5, &mut store), Ok(5));
    assert_eq!(
        Vm::insert_with_id(&request(None, None, None), 5, &mut store),
        Err(ModelError::DuplicateVm(5))
    );
    assert_eq!(Vm::all(&store).len(), 1);
}

#[test]
fn insert_without_address_stores_nothing() {
    let mut store = VmStore::new();
    let r = Vm::insert(&request(Some(NetworkMode::StaticIp), None, None), &mut store);
    assert_eq!(r, Err(ModelError::MissingAddress));
    assert_eq!(Vm::all(&store).len(), 0);
}

#[test]
fn get_missing_id_is_not_found() {
    let store = VmStore::new();
    assert_eq!(
        Vm::by_id(42, &store).unwrap_err(),
        ModelError::NotFound(EntityType::Vm, 42)
    );
    let r = by_id(Vm::by_id(42, &store));
    assert_eq!(r.status, Status::BadRequest);
    assert_eq!(r.status.code(), 400);
    assert!(matches!(r.response, Payload::Error(ModelError::NotFound(EntityType::Vm, 42))));
}

#[test]
fn all_keeps_storage_order() {
    let mut store = VmStore::new();
    Vm::insert_with_id(&request(None, None, None), 3, &mut store).unwrap();
    Vm::insert_with_id(&request(None, None, None), 1, &mut store).unwrap();
    Vm::insert_with_id(&request(None, None, None), 2, &mut store).unwrap();
    let ids: Vec<u128> = Vm::all(&store).iter().map(|v| v.id).collect();
    assert_eq!(ids, vec![3, 1, 2]);
    assert_eq!(Vm::delete_all(&mut store), 3);
    assert_eq!(Vm::all(&store).len(), 0);
}

#[test]
fn update_replaces_existing_record() {
    let mut store = VmStore::new();
    Vm::insert_with_id(&request(None, None, None), 9, &mut store).unwrap();
    let mut vm = Vm::by_id(9, &store).unwrap();
    vm.status = 1;
    vm.name = String::from("renamed");
    let updated = Vm::update(&vm, &mut store).unwrap();
    assert_eq!(updated.status, 1);
    let got = Vm::by_id(9, &store).unwrap();
    assert_eq!(got.status, 1);
    assert_eq!(got.name, "renamed");
    assert_eq!(Vm::all(&store).len(), 1);
}

#[test]
fn update_missing_record_fails() {
    let mut store = VmStore::new();
    let vm = Vm::from_new_with_id(&request(None, None, None), 4).unwrap();
    assert_eq!(
        Vm::update(&vm, &mut store).unwrap_err(),
        ModelError::NotFound(EntityType::Vm, 4)
    );
    assert_eq!(Vm::all(&store).len(), 0);
}

#[test]
fn attach_once_then_duplicate_fails() {
    let mut store = VmStore::new();
    Vm::insert_with_id(&request(None, None, None), 1, &mut store).unwrap();
    Vm::insert_with_id(&request(None, None, None), 2, &mut store).unwrap();
    assert_eq!(Vm::attach_drive(1, 100, &mut store), Ok(()));
    assert_eq!(Vm::attach_drive(2, 100, &mut store), Ok(()));
    assert_eq!(Vm::attach_drive(1, 101, &mut store), Ok(()));
    let vm = Vm::by_id(1, &store).unwrap();
    assert_eq!(store.drives_for_vm(&vm), vec![100, 101]);
    assert_eq!(
        Vm::attach_drive(1, 100, &mut store),
        Err(ModelError::DuplicateAttachment(1, 100))
    );
    assert_eq!(store.drives_for_vm(&vm), vec![100, 101]);
    assert_eq!(
        Vm::attach_drive(3, 100, &mut store),
        Err(ModelError::NotFound(EntityType::Vm, 3))
    );
    let pair = AttachedDrive { vm_id: 1, drive_id: 100 };
    assert_eq!(pair.drive_id, 100);
}

#[test]
fn attach_and_list_handlers() {
    let mut store = VmStore::new();
    Vm::insert_with_id(&request(None, None, None), 1, &mut store).unwrap();
    let r = attach_drive(Vm::attach_drive(1, 77, &mut store));
    assert_eq!(r.status, Status::Success);
    assert!(matches!(r.response, Payload::StatusOk));
    let r = attach_drive(Vm::attach_drive(1, 77, &mut store));
    assert_eq!(r.status, Status::BadRequest);
    assert!(matches!(r.response, Payload::Error(ModelError::DuplicateAttachment(1, 77))));
    let r = drives_for_vm(Vm::by_id(1, &store).map(|vm| store.drives_for_vm(&vm)));
    assert_eq!(r.status.code(), 200);
    match r.response {
        Payload::Drives(d) => assert_eq!(d, vec![77]),
        _ => panic!("expected a drive listing"),
    }
    let r = drives_for_vm(Vm::by_id(2, &store).map(|vm| store.drives_for_vm(&vm)));
    assert_eq!(r.status, Status::BadRequest);
    assert!(matches!(r.response, Payload::Error(ModelError::NotFound(EntityType::Vm, 2))));
}

#[test]
fn start_and_stop_report_errors_in_body() {
    let mut store = VmStore::new();
    Vm::insert_with_id(&request(None, None, None), 1, &mut store).unwrap();
    let r = start_vm(Vm::by_id(1, &store).map(|v| v.id));
    assert_eq!(r.status, Status::Success);
    assert!(matches!(r.response, Payload::VmId(1)));
    let r = stop_vm(Vm::by_id(1, &store).map(|v| v.id));
    assert!(matches!(r.response, Payload::VmId(1)));
    let r = start_vm(Vm::by_id(2, &store).map(|v| v.id));
    assert_eq!(r.status, Status::Success);
    assert!(matches!(r.response, Payload::StartFailed(ModelError::NotFound(EntityType::Vm, 2))));
    let r = stop_vm(Vm::by_id(2, &store).map(|v| v.id));
    assert_eq!(r.status.code(), 200);
    assert!(matches!(r.response, Payload::StopFailed));
}

#[test]
fn dhcp_scenario_through_handler() {
    let mut store = VmStore::new();
    let nv = request(Some(NetworkMode::Dhcp), Some("192.168.1.5"), None);
    let r = vmm_api::handlers::add_vm(Vm::insert(&nv, &mut store));
    let id = match r.response {
        Payload::VmId(id) => id,
        _ => panic!("expected an id"),
    };
    let r = by_id(Vm::by_id(id, &store));
    assert_eq!(r.status, Status::Success);
    match r.response {
        Payload::Vm(vm) => {
            assert_eq!(vm.network_mode, Some(String::from("dhcp")));
            assert_eq!(vm.address, Some(String::new()));
        }
        _ => panic!("expected a record"),
    }
}

#[test]
fn error_messages_name_the_id() {
    let id: u128 = 0x67e5_5044_10b1_426f_9247_bb68_0e5f_e0c8;
    assert_eq!(
        ModelError::NotFound(EntityType::Vm, id).message(),
        "vm 67e55044-10b1-426f-9247-bb680e5fe0c8 not found"
    );
    assert_eq!(
        ModelError::NotFound(EntityType::Vm, 1).message(),
        "vm 00000000-0000-0000-0000-000000000001 not found"
    );
    assert_eq!(
        ModelError::DuplicateVm(id).message(),
        "vm 67e55044-10b1-426f-9247-bb680e5fe0c8 already exists"
    );
    assert_eq!(
        ModelError::DuplicateAttachment(1, 2).message(),
        "drive 00000000-0000-0000-0000-000000000002 is already attached to vm 00000000-0000-0000-0000-000000000001"
    );
    assert_eq!(
        ModelError::MissingAddress.message(),
        "network mode static_ip requires an address"
    );
}

#[test]
fn error_envelopes() {
    let store = VmStore::new();
    let r = by_id(Vm::by_id(0xabc, &store));
    let text = r.response.error_text().unwrap();
    assert!(text.contains("not found"));
    assert_eq!(text, "vm 00000000-0000-0000-0000-000000000abc not found");
    let r = start_vm(Vm::by_id(0xabc, &store).map(|v| v.id));
    assert_eq!(
        r.response.error_text().unwrap(),
        "could not start vm: vm 00000000-0000-0000-0000-000000000abc not found"
    );
    let r = stop_vm(Vm::by_id(0xabc, &store).map(|v| v.id));
    assert_eq!(r.response.error_text().unwrap(), "could not stop vm");
    let r = vmm_api::handlers::index(Ok(Vm::all(&store)));
    assert!(r.response.error_text().is_none());
}

#[test]
fn lookup_outcome_and_storage_failures() {
    let vm = Vm::from_new_with_id(&request(None, None, None), 8).unwrap();
    assert_eq!(Vm::from_lookup(8, Some(vm)).unwrap().id, 8);
    assert_eq!(
        Vm::from_lookup(8, None).unwrap_err(),
        ModelError::NotFound(EntityType::Vm, 8)
    );
    let e = ModelError::StorageFailure(String::from("connection refused"));
    assert_eq!(e.message(), "connection refused");
    let r = vmm_api::handlers::index(Err(e.clone()));
    assert_eq!(r.status.code(), 400);
    assert_eq!(r.response.error_text().unwrap(), "connection refused");
    let r = vmm_api::handlers::add_vm(Err(e.clone()));
    assert_eq!(r.status, Status::BadRequest);
    let r = attach_drive(Err(e.clone()));
    assert_eq!(r.status, Status::BadRequest);
    let r = drives_for_vm(Err(e.clone()));
    assert_eq!(r.status, Status::BadRequest);
    let r = start_vm(Err(e.clone()));
    assert_eq!(r.status, Status::Success);
    assert_eq!(
        r.response.error_text().unwrap(),
        "could not start vm: connection refused"
    );
    let r = stop_vm(Err(e));
    assert_eq!(r.response.error_text().unwrap(), "could not stop vm");
}

#[test]
fn empty_store_valid_request_is_created() {
    let mut store = VmStore::new();
    let r = vmm_api::handlers::add_vm(Vm::insert(&request(None, None, None), &mut store));
    assert_eq!(r.status.code(), 200);
    let id = match r.response {
        Payload::VmId(id) => id,
        _ => panic!("expected an id"),
    };
    let all = Vm::all(&store);
    assert_eq!(all.len(), 1);
    assert_eq!(all[0].id, id);
}
