use solox::allocator::{
    AllocError, Allocator, CSpacePath, CapRange, MapPage, MapPageAction, MapPageEvent,
    MapPageStep, UntypedItem, UntypedRetype, VkaObject,
};
use solox::sel4::{
    api_object_seL4_CapTableObject, api_object_seL4_EndpointObject,
    api_object_seL4_NotificationObject, api_object_seL4_TCBObject, api_object_seL4_UntypedObject,
    seL4_CapInitThreadCNode,
};

fn booted(first: usize, count: usize, untyped: &[UntypedItem]) -> Allocator {
    let mut a = Allocator::new();
    a.bootstrap(2, 32, CapRange { first, count }, untyped);
    a
}

#[test]
fn object_sizes() {
    let a = Allocator::new();
    assert_eq!(a.vka_get_object_size(api_object_seL4_UntypedObject, 17), 17);
    assert_eq!(a.vka_get_object_size(api_object_seL4_TCBObject, 0), 9);
    assert_eq!(a.vka_get_object_size(api_object_seL4_EndpointObject, 0), 4);
    assert_eq!(a.vka_get_object_size(api_object_seL4_NotificationObject, 0), 4);
    assert_eq!(a.vka_get_object_size(api_object_seL4_CapTableObject, 8), 12);
}

#[test]
fn slots_are_handed_out_in_order_until_exhausted() {
    let mut a = booted(100, 3, &[]);
    assert_eq!(a.vka_cspace_alloc(), Ok(100));
    assert_eq!(a.vka_cspace_alloc(), Ok(101));
    assert_eq!(a.vka_cspace_alloc(), Ok(102));
    assert_eq!(a.vka_cspace_alloc(), Err(AllocError::ResourceExhausted));
}

#[test]
fn free_gives_back_only_the_last_slot() {
    let mut a = booted(100, 3, &[]);
    let s0 = a.vka_cspace_alloc().unwrap();
    let s1 = a.vka_cspace_alloc().unwrap();
    a.vka_cspace_free(s0); // not the last one: stays used
    assert_eq!(a.vka_cspace_alloc(), Ok(102));
    a.vka_cspace_free(102);
    a.vka_cspace_free(s1);
    assert_eq!(a.vka_cspace_alloc(), Ok(s1));
}

#[test]
fn cspace_path() {
    let a = booted(100, 3, &[]);
    assert_eq!(
        a.vka_cspace_make_path(7),
        CSpacePath { cap_ptr: 7, cap_depth: 32, root: 2, dest: 2, dest_depth: 32, offset: 7, window: 1 }
    );
}

#[test]
fn vka_object_new_is_zero() {
    assert_eq!(VkaObject::new(), VkaObject { cptr: 0, ut: 0, item_type: 0, size_bits: 0 });
}

#[test]
fn tcb_from_initial_untyped() {
    let untyped = [
        UntypedItem { cap: 40, size_bits: 12 },
        UntypedItem { cap: 41, size_bits: 9 },
        UntypedItem { cap: 42, size_bits: 9 },
    ];
    let mut a = booted(100, 10, &untyped);
    let req = a.vka_alloc_tcb().unwrap();
    assert_eq!(req.object, VkaObject { cptr: 100, ut: 41, item_type: 1, size_bits: 9 });
    assert_eq!(
        req.retype,
        UntypedRetype {
            service: 41,
            item_type: 1,
            size_bits: 9,
            root: seL4_CapInitThreadCNode,
            node_index: 2,
            node_depth: 32,
            node_offset: 100,
            num_objects: 1,
        }
    );
    assert_eq!(req.complete(0), Ok(req.object));
    assert_eq!(req.complete(3), Err(AllocError::ResourceExhausted));
    // the next TCB comes from the other item of that size
    let req2 = a.vka_alloc_tcb().unwrap();
    assert_eq!(req2.object.cptr, 101);
    assert_eq!(req2.object.ut, 42);
    // none left of 9 bits; the slot is used all the same
    assert_eq!(a.vka_alloc_tcb(), Err(AllocError::ResourceExhausted));
    assert_eq!(a.vka_cspace_alloc(), Ok(103));
}

#[test]
fn endpoint_and_notification() {
    let untyped = [UntypedItem { cap: 50, size_bits: 4 }, UntypedItem { cap: 51, size_bits: 4 }];
    let mut a = booted(10, 4, &untyped);
    let ep = a.vka_alloc_endpoint().unwrap();
    assert_eq!(ep.object, VkaObject { cptr: 10, ut: 50, item_type: 2, size_bits: 4 });
    let ntfn = a.vka_alloc_notification().unwrap();
    assert_eq!(ntfn.object, VkaObject { cptr: 11, ut: 51, item_type: 3, size_bits: 4 });
}

#[test]
fn untyped_out_of_range_sizes() {
    let untyped = [UntypedItem { cap: 60, size_bits: 2 }];
    let mut a = booted(10, 4, &untyped);
    assert_eq!(a.vka_alloc_untyped(2), Err(AllocError::ResourceExhausted));
    assert_eq!(a.vka_alloc_untyped(33), Err(AllocError::ResourceExhausted));
    let mut empty = booted(10, 0, &untyped);
    assert_eq!(empty.vka_alloc_untyped(12), Err(AllocError::ResourceExhausted));
}

#[test]
fn utspace_alloc_into_path() {
    let untyped = [UntypedItem { cap: 70, size_bits: 16 }];
    let mut a = booted(10, 4, &untyped);
    let path = a.vka_cspace_make_path(33);
    let req = a.vka_utspace_alloc(&path, api_object_seL4_UntypedObject, 16).unwrap();
    assert_eq!(req.node_offset, 33);
    assert_eq!(req.service, 70);
    assert_eq!(req.result(0), Ok(70));
    assert_eq!(req.result(1), Err(AllocError::ResourceExhausted));
    assert_eq!(
        a.vka_utspace_alloc(&path, api_object_seL4_UntypedObject, 16),
        Err(AllocError::ResourceExhausted)
    );
}

#[test]
fn kobject_allocation() {
    let untyped = [UntypedItem { cap: 80, size_bits: 9 }];
    let mut a = booted(20, 1, &untyped);
    let req = a.alloc_kobject(api_object_seL4_TCBObject, 9).unwrap();
    assert_eq!(req.slot, 20);
    assert_eq!(req.retype.service, 80);
    assert_eq!(req.complete(0), Some(20));
    assert_eq!(req.complete(1), Some(0));
    assert!(a.alloc_kobject(api_object_seL4_TCBObject, 9).is_none());
}

#[test]
fn vspace_bootstrap_and_mapping_that_succeeds() {
    let mut a = booted(20, 4, &[]);
    assert_eq!(a.bootstrap_vspace(3), Ok(()));
    let (mut m, first) = a.map_page(55, 0x1000_0000, 0, 0);
    assert!(matches!(
        first,
        MapPageAction::MapFrame { cap: 55, page_directory: 3, vaddr: 0x1000_0000, attributes: 0 }
    ));
    let next = a.map_page_step(&mut m, MapPageEvent::Kernel(0));
    assert!(matches!(next, MapPageAction::Done(Ok(()))));
}

#[test]
fn mapping_through_a_new_page_table() {
    let mut a = booted(20, 4, &[]);
    a.bootstrap_vspace(3).unwrap();
    let (mut m, _) = a.map_page(55, 0x1000_0000, 0, 1);
    assert!(matches!(a.map_page_step(&mut m, MapPageEvent::Kernel(6)), MapPageAction::AllocPageTable));
    assert_eq!(m.step, MapPageStep::AllocPageTable);
    let pt = VkaObject { cptr: 77, ut: 5, item_type: 9, size_bits: 10 };
    assert!(matches!(
        a.map_page_step(&mut m, MapPageEvent::PageTable(Ok(pt))),
        MapPageAction::MapPageTable { page_table: 77, page_directory: 3, vaddr: 0x1000_0000, attributes: 1 }
    ));
    assert!(matches!(
        a.map_page_step(&mut m, MapPageEvent::Kernel(0)),
        MapPageAction::MapFrame { cap: 55, page_directory: 3, .. }
    ));
    assert_eq!(m, MapPage { cap: 55, vaddr: 0x1000_0000, cache_attributes: 1, step: MapPageStep::RemapFrame });
    assert!(matches!(a.map_page_step(&mut m, MapPageEvent::Kernel(0)), MapPageAction::Done(Ok(()))));
}

#[test]
fn mapping_failures() {
    let mut a = booted(20, 4, &[]);
    let (mut m, _) = a.map_page(55, 0x2000, 0, 0);
    a.map_page_step(&mut m, MapPageEvent::Kernel(1));
    assert!(matches!(
        a.map_page_step(&mut m, MapPageEvent::PageTable(Err(AllocError::ResourceExhausted))),
        MapPageAction::Done(Err(AllocError::ResourceExhausted))
    ));
    let (mut m, _) = a.map_page(55, 0x2000, 0, 0);
    a.map_page_step(&mut m, MapPageEvent::Kernel(1));
    let pt = VkaObject { cptr: 78, ut: 5, item_type: 9, size_bits: 10 };
    a.map_page_step(&mut m, MapPageEvent::PageTable(Ok(pt)));
    assert!(matches!(a.map_page_step(&mut m, MapPageEvent::Kernel(2)), MapPageAction::Done(Err(AllocError::Other))));
    let (mut m, _) = a.map_page(55, 0x2000, 0, 0);
    a.map_page_step(&mut m, MapPageEvent::Kernel(1));
    a.map_page_step(&mut m, MapPageEvent::PageTable(Ok(pt)));
    a.map_page_step(&mut m, MapPageEvent::Kernel(0));
    assert!(matches!(a.map_page_step(&mut m, MapPageEvent::Kernel(2)), MapPageAction::Done(Err(AllocError::Other))));
}

#[test]
fn frame_and_page_table_without_free_slot() {
    let untyped = [UntypedItem { cap: 90, size_bits: 12 }];
    let mut a = booted(30, 0, &untyped);
    assert_eq!(a.num_free_slots(), 0);
    assert_eq!(a.vka_alloc_frame(12), Err(AllocError::ResourceExhausted));
    assert_eq!(a.vka_alloc_page_table(), Err(AllocError::ResourceExhausted));
    // the untyped item is still there for a 12-bit untyped object once a slot exists
    let mut b = booted(30, 1, &untyped);
    assert_eq!(b.vka_alloc_untyped(12).unwrap().object.ut, 90);
}
