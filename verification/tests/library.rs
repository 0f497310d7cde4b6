use libfabric::addr::{AddressSource, AddressVectorType, FI_ADDR_NOTAVAIL};
use libfabric::async_::conn_ep::{UninitUnconnectedEndpoint, UnconnectedEndpointB};
use libfabric::async_::cq::{
    async_read_result, read_step, user_completion, CompletionQueueBuilder as AsyncCompletionQueueBuilder, PendingCompletions, ReadStep,
};
use libfabric::async_::ctx::{AsyncCtx, MsgContextSwap};
use libfabric::comm::collective::{CollectiveAttr, MulticastGroupCollective};
use libfabric::conn_ep::UnconnectedEndpoint;
use libfabric::connless_ep::{ConnectionlessEndpointB, UninitConnectionlessEndpoint};
use libfabric::cq::{
    Completion, CompletionError, CompletionQueueAttr, CompletionQueueBuilder, CompletionQueueImpl,
    CqEntry, CqFormat, CqMsgEntry, CqTaggedEntry, SingleCompletion, WaitCond, WaitObj, WaitObjQuery, WaitObjType,
    FI_AFFINITY,
};
use libfabric::domain::{Domain, DomainAttr, DomainBuilder, FI_MR_RAW, FI_REG_MR};
use libfabric::ep::{
    outcome, size_left_outcome, Address, AddressQuery, Endpoint, EndpointAttr, EndpointBuilder, PassiveEndpoint,
    ScalableEndpoint, FI_READ, FI_RECV, FI_REMOTE_READ, FI_REMOTE_WRITE, FI_SELECTIVE_COMPLETION, FI_SEND,
    FI_TRANSMIT, FI_WRITE,
};
use libfabric::error::{check_error, check_error_i32, nonnegative_outcome, Error, FI_EADDRNOTAVAIL, FI_EAGAIN, FI_ENOKEY, FI_ETOOSMALL};
use libfabric::fid::Fid;
use libfabric::mr::{
    default_desc, HmemIface, KeyQuery, MemoryRegion, MemoryRegionBuilder, MemoryRegionDesc, MemoryRegionKey,
    FI_COLLECTIVE, FI_KEY_NOTAVAIL,
};
use libfabric::sync::PollFd;
use libfabric::{
    get_eq, get_info, get_sync, AsFiType, DataType, EqCaps, FabInfoCaps, MappedAddress, RawMappedAddress, SyncCaps,
};

fn domain(raw: bool, key_size: usize) -> Domain {
    Domain::new2(Fid(7), 0, if raw { FI_MR_RAW } else { 0 }, key_size).unwrap()
}

#[test]
fn caps_values_follow_declaration_order() {
    assert_eq!(FabInfoCaps::MSG.value(), 0);
    assert_eq!(FabInfoCaps::COLL.value(), 9);
    assert_eq!(FabInfoCaps::RREAD.value(), 16);
    assert_eq!(SyncCaps::WAIT.value(), 0);
    assert_eq!(SyncCaps::FD.value(), 2);
    assert_eq!(EqCaps::RETRIEVE.value(), 1);
    assert_eq!(EqCaps::WRITE.value(), 3);
}

#[test]
fn get_info_looks_only_at_the_first_n() {
    let asked = [FabInfoCaps::MSG, FabInfoCaps::RMA, FabInfoCaps::TAG];
    assert!(get_info::<3>(FabInfoCaps::TAG, &asked));
    assert!(!get_info::<2>(FabInfoCaps::TAG, &asked));
    assert!(!get_info::<3>(FabInfoCaps::ATOMIC, &asked));
    assert!(!get_info::<0>(FabInfoCaps::MSG, &asked));
}

#[test]
fn get_sync_and_get_eq_membership() {
    assert!(get_sync::<2>(SyncCaps::RETRIEVE, &[SyncCaps::WAIT, SyncCaps::RETRIEVE]));
    assert!(!get_sync::<2>(SyncCaps::FD, &[SyncCaps::WAIT, SyncCaps::RETRIEVE]));
    assert!(get_eq::<1>(EqCaps::WRITE, &[EqCaps::WRITE, EqCaps::FD]));
    assert!(!get_eq::<1>(EqCaps::FD, &[EqCaps::WRITE, EqCaps::FD]));
}

#[test]
fn check_error_maps_codes() {
    assert_eq!(check_error(0), Ok(()));
    assert_eq!(check_error(-11), Err(Error { code: 11 }));
    assert_eq!(check_error_i32(-257), Err(Error { code: FI_ETOOSMALL }));
    assert_eq!(Error::from_err_code(266).code(), FI_ENOKEY);
}

#[test]
fn plain_key_bytes_are_little_endian() {
    let key = MemoryRegionKey::from_u64(0x0102_0304_0506_0708);
    assert_eq!(key.to_bytes(), vec![8, 7, 6, 5, 4, 3, 2, 1]);
}

#[test]
fn plain_key_round_trip() {
    let d = domain(false, 0);
    let key = MemoryRegionKey::from_u64(0xC0DE);
    let bytes = key.to_bytes();
    match MemoryRegionKey::from_bytes(&bytes, &d) {
        MemoryRegionKey::Key(k) => assert_eq!(k, 0xC0DE),
        MemoryRegionKey::RawKey(_) => panic!("expected a plain key"),
    }
}

#[test]
fn raw_key_round_trip() {
    let d = domain(true, 12);
    let key = MemoryRegionKey::RawKey((vec![1, 2, 3, 4], 0x1000));
    let bytes = key.to_bytes();
    assert_eq!(bytes, vec![1, 2, 3, 4, 0, 0x10, 0, 0, 0, 0, 0, 0]);
    match MemoryRegionKey::from_bytes(&bytes, &d) {
        MemoryRegionKey::RawKey((raw, base)) => {
            assert_eq!(raw, vec![1, 2, 3, 4]);
            assert_eq!(base, 0x1000);
        }
        MemoryRegionKey::Key(_) => panic!("expected a raw key"),
    }
}

#[test]
fn into_mapped_plain_key_is_not_mapped() {
    let d = domain(false, 0);
    let mapped = MemoryRegionKey::from_u64(42)
        .into_mapped(&d, |_raw: Vec<u8>, _base: u64| -> Result<u64, Error> { panic!("no mapping for plain keys") })
        .unwrap();
    assert_eq!(mapped.get_key(), 42);
    assert_eq!(mapped.key_to_unmap(), None);
}

#[test]
fn into_mapped_raw_key_uses_the_mapping() {
    let d = domain(true, 10);
    let key = MemoryRegionKey::RawKey((vec![9, 9], 77));
    let mapped = key
        .into_mapped(&d, |raw: Vec<u8>, base: u64| -> Result<u64, Error> {
            assert_eq!(raw, vec![9, 9]);
            assert_eq!(base, 77);
            Ok(555)
        })
        .unwrap();
    assert_eq!(mapped.get_key(), 555);
    assert_eq!(mapped.key_to_unmap(), Some((555, Fid(7))));
}

#[test]
fn into_mapped_raw_key_reports_mapping_error() {
    let d = domain(true, 10);
    let key = MemoryRegionKey::RawKey((vec![9, 9], 77));
    let r = key.into_mapped(&d, |_raw: Vec<u8>, _base: u64| -> Result<u64, Error> { Err(Error { code: 22 }) });
    assert!(matches!(r, Err(Error { code: 22 })));
}

#[test]
fn memory_region_key_queries() {
    let plain = MemoryRegion::new(&domain(false, 0), Fid(3), 0).unwrap();
    assert_eq!(plain.key_query(), KeyQuery::Key);
    assert!(matches!(plain.key_outcome(FI_KEY_NOTAVAIL), Err(Error { code: FI_ENOKEY })));
    assert!(matches!(plain.key_outcome(12), Ok(MemoryRegionKey::Key(12))));
    let raw = MemoryRegion::new(&domain(true, 9), Fid(4), 0).unwrap();
    assert_eq!(raw.key_query(), KeyQuery::RawAttr(9));
    match raw.raw_key_outcome(0, &[5, 1, 0, 0, 0, 0, 0, 0, 0]).unwrap() {
        MemoryRegionKey::RawKey((k, base)) => {
            assert_eq!(k, vec![5]);
            assert_eq!(base, 1);
        }
        MemoryRegionKey::Key(_) => panic!("expected a raw key"),
    }
    assert!(matches!(raw.raw_key_outcome(-5, &[0; 9]), Err(Error { code: 5 })));
    assert!(matches!(MemoryRegion::new(&domain(false, 0), Fid(3), -12), Err(Error { code: 12 })));
}

#[test]
fn memory_region_address_outcome() {
    assert_eq!(MemoryRegion::address_outcome(0, 0x4000), Ok(0x4000));
    assert_eq!(MemoryRegion::address_outcome(-257, 0x4000), Ok(0x4000));
    assert_eq!(MemoryRegion::address_outcome(-22, 0x4000), Err(Error { code: 22 }));
}

#[test]
fn memory_region_records_bindings_on_success() {
    let mut mr = MemoryRegion::new(&domain(false, 0), Fid(3), 0).unwrap();
    assert_eq!(mr.bound_cntr(), None);
    assert_eq!(mr.bound_ep(), None);
    assert_eq!(mr.bind_cntr(Fid(10), -5), Err(Error { code: 5 }));
    assert_eq!(mr.bound_cntr(), None);
    assert_eq!(mr.bind_ep(Fid(11), -6), Err(Error { code: 6 }));
    assert_eq!(mr.bound_ep(), None);
    assert_eq!(mr.bind_cntr(Fid(10), 0), Ok(()));
    assert_eq!(mr.bound_cntr(), Some(Fid(10)));
    assert_eq!(mr.bind_ep(Fid(11), 0), Ok(()));
    assert_eq!(mr.bound_ep(), Some(Fid(11)));
    assert_eq!(mr.fid(), Fid(3));
}

#[test]
fn user_completion_reports_the_application_context() {
    let tagged = SingleCompletion::Tagged(CqTaggedEntry { op_context: 0x500, flags: 2, len: 3, buf: 4, data: 5, tag: 6 });
    let with_user = user_completion(tagged, &AsyncCtx::new(Some(0x77)));
    assert_eq!(
        with_user,
        SingleCompletion::Tagged(CqTaggedEntry { op_context: 0x77, flags: 2, len: 3, buf: 4, data: 5, tag: 6 })
    );
    let ctx = SingleCompletion::Ctx(CqEntry { op_context: 0x500 });
    assert_eq!(user_completion(ctx, &AsyncCtx::new(None)), SingleCompletion::Ctx(CqEntry { op_context: 0 }));
    let msg = SingleCompletion::Msg(CqMsgEntry { op_context: 0x500, flags: 9, len: 8 });
    assert_eq!(
        user_completion(msg, &AsyncCtx::for_message(0x33)),
        SingleCompletion::Msg(CqMsgEntry { op_context: 0x33, flags: 9, len: 8 })
    );
}

#[test]
fn descriptors() {
    assert_eq!(default_desc().get_desc(), 0);
    assert_eq!(MemoryRegionDesc::from_desc(0x10).get_desc(), 0x10);
}

#[test]
fn rx_addr_sets_top_bits_and_keeps_av() {
    let a = MappedAddress::from_raw_addr(RawMappedAddress::Table(5), AddressSource::Av(Fid(1)));
    let rx = a.rx_addr(3, 8).unwrap();
    assert_eq!(rx.raw_addr(), (3u64 << 56) | 5);
    match rx {
        MappedAddress::Table(t) => assert_eq!(t.av(), AddressSource::Av(Fid(1))),
        _ => panic!("the kind of address changed"),
    }
}

#[test]
fn rx_addr_not_available() {
    let a = MappedAddress::from_raw_addr(RawMappedAddress::AvMap(FI_ADDR_NOTAVAIL), AddressSource::Av(Fid(1)));
    assert!(matches!(a.rx_addr(0, 4), Err(Error { code: FI_EADDRNOTAVAIL })));
}

#[test]
fn raw_mapped_addresses() {
    assert_eq!(RawMappedAddress::from_raw(AddressVectorType::AvMap, 4), RawMappedAddress::AvMap(4));
    assert_eq!(RawMappedAddress::from_raw(AddressVectorType::Table, 4).get(), 4);
    let u = MappedAddress::from_raw_addr(RawMappedAddress::Unspec(9), AddressSource::AvSet(Fid(2)));
    assert!(matches!(u, MappedAddress::Unspec(_)));
    assert_eq!(MappedAddress::from_raw_addr_no_av(RawMappedAddress::Unspec(9)), u);
}

#[test]
fn address_bytes() {
    let a = Address::from_bytes(&[1, 2, 3]);
    assert_eq!(a.as_bytes(), &[1, 2, 3]);
}

#[test]
fn address_query_protocol() {
    assert!(matches!(Address::probe_outcome(-257, 16), AddressQuery::Fetch(16)));
    assert!(matches!(Address::probe_outcome(0, 0), AddressQuery::Failed(Error { code: 0 })));
    assert!(matches!(Address::probe_outcome(-22, 0), AddressQuery::Failed(Error { code: 22 })));
    assert_eq!(Address::name_outcome(0, vec![4, 5]).unwrap().as_bytes(), &[4, 5]);
    assert!(matches!(Address::name_outcome(-2, vec![]), Err(Error { code: 2 })));
    assert!(matches!(Address::peer_outcome(-2, vec![]), Err(Error { code: 2 })));
    assert_eq!(Address::peer_outcome(0, vec![6]).unwrap().as_bytes(), &[6]);
}

#[test]
fn query_outcomes() {
    assert_eq!(outcome(0, 64usize), Ok(64));
    assert_eq!(outcome(-95, 64usize), Err(Error { code: 95 }));
    assert_eq!(size_left_outcome(12), Ok(12));
    assert_eq!(size_left_outcome(-11), Err(Error { code: 11 }));
}

#[test]
fn flag_constants() {
    assert_eq!(FI_TRANSMIT, FI_SEND);
    assert_eq!(FI_RECV, 1 << 10);
    assert_eq!(FI_READ, 1 << 8);
    assert_eq!(FI_WRITE, 1 << 9);
    assert_eq!(FI_REMOTE_READ, 1 << 12);
    assert_eq!(FI_REMOTE_WRITE, 1 << 13);
    assert_eq!(FI_SELECTIVE_COMPLETION, 1 << 59);
}

#[test]
fn bind_cq_both_directions() {
    let mut ep: Endpoint = Endpoint::new(&domain(false, 0), Fid(1), 0, false).unwrap();
    {
        let mut b = ep.bind_cq();
        b.recv(false).transmit(false);
        assert_eq!(b.flags(), FI_RECV | FI_TRANSMIT);
        assert_eq!(b.cq(Fid(20), 0), Ok(()));
    }
    assert_eq!(ep.inner().tx_cq(), Some(Fid(20)));
    assert_eq!(ep.inner().rx_cq(), Some(Fid(20)));
}

#[test]
fn bind_cq_selective_receive_only() {
    let mut ep: Endpoint = Endpoint::new(&domain(false, 0), Fid(1), 0, false).unwrap();
    {
        let mut b = ep.bind_cq();
        b.recv(true);
        assert_eq!(b.flags(), FI_SELECTIVE_COMPLETION | FI_RECV);
        assert_eq!(b.cq(Fid(21), 0), Ok(()));
    }
    assert_eq!(ep.inner().tx_cq(), None);
    assert_eq!(ep.inner().rx_cq(), Some(Fid(21)));
    {
        let mut b = ep.bind_cq();
        b.transmit(true);
        assert_eq!(b.cq(Fid(22), 0), Ok(()));
    }
    assert_eq!(ep.inner().tx_cq(), Some(Fid(22)));
    assert_eq!(ep.inner().rx_cq(), Some(Fid(21)));
}

#[test]
fn failed_bind_leaves_endpoint_unchanged() {
    let mut ep: Endpoint = Endpoint::new(&domain(false, 0), Fid(1), 0, false).unwrap();
    {
        let mut b = ep.bind_cq();
        b.transmit(false);
        assert_eq!(b.cq(Fid(20), -22), Err(Error { code: 22 }));
    }
    assert_eq!(ep.inner().tx_cq(), None);
    assert_eq!(ep.bind_eq(Fid(30), -1), Err(Error { code: 1 }));
    assert_eq!(ep.inner().eq(), None);
    assert_eq!(ep.bind_eq(Fid(30), 0), Ok(()));
    assert_eq!(ep.inner().eq(), Some(Fid(30)));
}

#[test]
fn bind_counter_flags() {
    let mut ep: Endpoint = Endpoint::new(&domain(false, 0), Fid(1), 0, false).unwrap();
    let mut b = ep.bind_cntr();
    b.read().write().send().recv().remote_read().remote_write();
    assert_eq!(b.flags, FI_READ | FI_WRITE | FI_SEND | FI_RECV | FI_REMOTE_READ | FI_REMOTE_WRITE);
    assert_eq!(b.cntr(Fid(40), 0), Ok(()));
    assert_eq!(ep.bind_av(Fid(41), 0), Ok(()));
    assert_eq!(ep.bind_av(Fid(42), -3), Err(Error { code: 3 }));
}

#[test]
fn endpoint_creation_failure() {
    assert!(matches!(Endpoint::new(&domain(false, 0), Fid(1), -12, false), Err(Error { code: 12 })));
    let ep: Endpoint = Endpoint::new(&domain(false, 0), Fid(1), 0, true).unwrap();
    let alias = ep.alias(Fid(2), 0).unwrap();
    assert_eq!(alias.inner().fid(), Fid(2));
    assert!(alias.inner().mr_local());
}

#[test]
fn connectionless_enable_picks_registration_requirement() {
    let plain: UninitConnectionlessEndpoint = UninitConnectionlessEndpoint::new(&domain(false, 0), Fid(1), 0, false).unwrap();
    assert!(matches!(plain.enable(0), Ok(ConnectionlessEndpointB::PlainData(_))));
    let local: UninitConnectionlessEndpoint = UninitConnectionlessEndpoint::new(&domain(false, 0), Fid(1), 0, true).unwrap();
    assert!(matches!(local.enable(0), Ok(ConnectionlessEndpointB::MrLocalData(_))));
    let failing: UninitConnectionlessEndpoint = UninitConnectionlessEndpoint::new(&domain(false, 0), Fid(1), 0, true).unwrap();
    assert!(matches!(failing.enable(-16), Err(Error { code: 16 })));
}

#[test]
fn async_enable_and_connect() {
    let ep: UninitUnconnectedEndpoint = UninitUnconnectedEndpoint::new(&domain(false, 0), Fid(5), 0, false).unwrap();
    let unconnected = match ep.enable(0) {
        Ok(UnconnectedEndpointB::PlainData(ep)) => ep,
        _ => panic!("expected a plain endpoint"),
    };
    let connected = unconnected.connect_complete(Fid(5));
    assert_eq!(connected.inner().fid(), Fid(5));
}

#[test]
fn sync_connect_complete() {
    let ep: UnconnectedEndpoint = UnconnectedEndpoint::new(&domain(false, 0), Fid(8), 0, false).unwrap();
    assert_eq!(ep.connect_complete(Fid(8)).inner().fid(), Fid(8));
}

#[test]
fn scalable_and_passive_endpoints() {
    let sep = ScalableEndpoint::new(&domain(false, 0), Fid(3), 0).unwrap();
    assert_eq!(sep.alias(Fid(4), 0).unwrap().fid(), Fid(4));
    assert_eq!(sep.alias(Fid(4), 0).unwrap().domain(), Fid(7));
    assert!(matches!(ScalableEndpoint::new(&domain(false, 0), Fid(3), -1), Err(Error { code: 1 })));
    let mut pep = PassiveEndpoint::new(Fid(40), Fid(6), 0).unwrap();
    assert_eq!(pep.bind(Fid(9), -4), Err(Error { code: 4 }));
    assert_eq!(pep.eq(), None);
    assert_eq!(pep.bind(Fid(9), 0), Ok(()));
    assert_eq!(pep.eq(), Some(Fid(9)));
    assert_eq!(pep.fabric(), Fid(40));
}

#[test]
fn endpoints_hold_their_domain() {
    let dom = Domain::new2(Fid(70), 0, 0, 0).unwrap();
    let ep: Endpoint = Endpoint::new(&dom, Fid(1), 0, false).unwrap();
    assert_eq!(ep.inner().domain(), Fid(70));
    assert_eq!(ep.alias(Fid(2), 0).unwrap().inner().domain(), Fid(70));
    let cq = CompletionQueueImpl::new(&dom, Fid(3), 0, &CompletionQueueAttr::new()).unwrap();
    assert_eq!(cq.domain(), Fid(70));
}

#[test]
fn connection_waits_on_the_bound_event_queue() {
    let mut ep: UnconnectedEndpoint = UnconnectedEndpoint::new(&domain(false, 0), Fid(8), 0, false).unwrap();
    assert_eq!(ep.bind_eq(Fid(12), 0), Ok(()));
    assert_eq!(ep.connection_event_queue(0), Ok(Fid(12)));
    assert_eq!(ep.connection_event_queue(-111), Err(Error { code: 111 }));
}

#[test]
fn async_reads_keep_the_entries_read() {
    let buffer = vec![CqEntry { op_context: 4 }, CqEntry { op_context: 0 }, CqEntry { op_context: 0 }];
    match async_read_result(1, Completion::Context(buffer)) {
        Ok(Completion::Context(read)) => assert_eq!(read, vec![CqEntry { op_context: 4 }]),
        _ => panic!("unexpected read result"),
    }
    assert!(matches!(async_read_result(-11, Completion::Context(vec![])), Err(Error { code: FI_EAGAIN })));
}

#[test]
fn domain_builder_context_clears_flags() {
    let fabric = 1u8;
    let info = 2u16;
    let mut ctx = ();
    let b = DomainBuilder::new(&fabric, &info).flags(5);
    assert_eq!(b.get_flags(), 5);
    let b = b.context(&mut ctx);
    assert_eq!(b.get_flags(), 0);
    let (f, i, c, flags) = b.flags(9).into_parts();
    assert_eq!((*f, *i, c.is_some(), flags), (1, 2, true, 9));
}

#[test]
fn domain_creation_and_binding() {
    assert!(matches!(Domain::new2(Fid(1), -2, 0, 0), Err(Error { code: 2 })));
    let mut d = domain(true, 16);
    assert!(d.is_raw());
    assert_eq!(d.get_mr_key_size(), 16);
    assert!(!d.async_mr_reg());
    assert_eq!(d.bind(Fid(3), FI_REG_MR, 0), Ok(()));
    assert!(d.async_mr_reg());
}

#[test]
fn domain_attr_setters() {
    let mut attr = DomainAttr::new();
    attr.mr_key_size(8).cq_cnt(3).mode(1).tclass(2).auth_key(&[1, 2]);
    assert_eq!(attr.mr_key_size, 8);
    assert_eq!(attr.cq_cnt, 3);
    assert_eq!(attr.get_mode(), 1);
    assert_eq!(attr.tclass, 2);
    assert_eq!(attr.auth_key, vec![1, 2]);
    attr.mr_mode(4).cq_data_size(8);
    assert_eq!(attr.get_mr_mode(), 4);
    assert_eq!(attr.get_cq_data_size(), 8);
}

#[test]
fn endpoint_attr_and_builder() {
    let mut attr = EndpointAttr::new();
    attr.max_msg_size(4096).ep_type(2);
    assert_eq!(attr.get_max_msg_size(), 4096);
    assert_eq!(attr.get_type(), 2);
    let info = 0u8;
    let b = EndpointBuilder::new(&info).flags(3).tx_ctx_cnt(2).auth_key(&[7]);
    assert_eq!(b.flags, 3);
    assert_eq!(b.ep_attr.tx_ctx_cnt, 2);
    assert_eq!(b.ep_attr.auth_key, vec![7]);
}

#[test]
fn memory_region_builder_configuration() {
    let d = domain(false, 0);
    let (attr, iovs, flags) = MemoryRegionBuilder::new("a", HmemIface::System)
        .add_buffer("b")
        .access_send()
        .access_recv()
        .access_collective()
        .requested_key(0xC0DE)
        .rma_event()
        .build(&d);
    assert_eq!(attr.iov_count, 2);
    assert_eq!(attr.access, FI_SEND | FI_RECV | FI_COLLECTIVE);
    assert_eq!(attr.requested_key, 0xC0DE);
    assert_eq!(iovs, vec!["a", "b"]);
    assert!(flags.rma_event && !flags.rma_pmem);
}

#[test]
fn completion_queue_attributes() {
    let mut attr = CompletionQueueAttr::new();
    attr.size(16).signaling_vector(2).wait_obj(WaitObj::WaitSet(Fid(4)));
    assert_eq!(attr.size, 16);
    assert_eq!(attr.flags, FI_AFFINITY);
    assert_eq!(attr.wait_set, Some(Fid(4)));
    let dom = 0u8;
    let b = CompletionQueueBuilder::new(&dom).format(CqFormat::DATA).wait_fd().enable_wait_cond();
    assert_eq!(b.cq_attr.format, CqFormat::DATA);
    assert_eq!(b.cq_attr.wait_obj, WaitObj::Fd);
    assert_eq!(b.cq_attr.wait_cond, WaitCond::Threshold);
    let ab = AsyncCompletionQueueBuilder::new(&dom).default_buff_size(4).size(8);
    assert_eq!(ab.default_buff_size, 4);
    assert_eq!(ab.build_attr().wait_obj, WaitObj::Fd);
}

#[test]
fn completion_queue_read_results() {
    let attr = CompletionQueueAttr::new();
    let cq = CompletionQueueImpl::new(&domain(false, 0), Fid(2), 0, &attr).unwrap();
    assert!(matches!(cq.read_result(0, Completion::Unspec(0)), Ok(Completion::Unspec(0))));
    assert!(matches!(cq.read_result(3, Completion::Unspec(0)), Ok(Completion::Unspec(3))));
    assert!(matches!(cq.read_result(-11, Completion::Unspec(0)), Err(Error { code: FI_EAGAIN })));
    let mut data_attr = CompletionQueueAttr::new();
    data_attr.format(CqFormat::MSG).wait_obj(WaitObj::Fd);
    let cq = CompletionQueueImpl::new(&domain(false, 0), Fid(2), 0, &data_attr).unwrap();
    let entries = vec![CqMsgEntry { op_context: 1, flags: 2, len: 3 }];
    match cq.readfrom_result(1, Completion::Message(entries), 17).unwrap() {
        (Completion::Message(e), Some(a)) => {
            assert_eq!(e[0].len, 3);
            assert_eq!(a.raw_addr(), 17);
        }
        _ => panic!("unexpected read result"),
    }
    assert!(matches!(cq.readfrom_result(0, Completion::Message(vec![]), FI_ADDR_NOTAVAIL), Ok((_, None))));
    let buffer = vec![CqMsgEntry { op_context: 1, flags: 2, len: 3 }, CqMsgEntry { op_context: 0, flags: 0, len: 0 }];
    match cq.read_result(1, Completion::Message(buffer)) {
        Ok(Completion::Message(read)) => assert_eq!(read, vec![CqMsgEntry { op_context: 1, flags: 2, len: 3 }]),
        _ => panic!("unexpected read result"),
    }
    assert_eq!(cq.wait_object_query(), WaitObjQuery::Fd);
    assert_eq!(cq.wait_obj(), Some(WaitObj::Fd));
    assert_eq!(nonnegative_outcome(0, WaitObjType::Fd(9)), Ok(WaitObjType::Fd(9)));
    assert_eq!(nonnegative_outcome(-9, WaitObjType::Fd(9)), Err(Error { code: 9 }));
    assert_eq!(nonnegative_outcome(1, CompletionError::new()), Ok(CompletionError::new()));
}

#[test]
fn completion_entries() {
    assert!(CqEntry { op_context: 5 }.is_op_context_equal(5));
    assert_eq!(CqTaggedEntry::new().tag(), 0);
    let mut e = CompletionError::new();
    e.err = 11;
    assert_eq!(e.error(), Error { code: 11 });
    assert!(!e.is_op_context_equal(1));
}

fn ctx_entry(ctx: usize) -> SingleCompletion {
    SingleCompletion::Ctx(CqEntry { op_context: ctx })
}

#[test]
fn pending_completions_dispatch() {
    let mut pending = PendingCompletions::new();
    assert!(pending.is_empty());
    let found = pending.dispatch(2, &vec![ctx_entry(1), ctx_entry(2), ctx_entry(3)]);
    assert_eq!(found, Some(ctx_entry(2)));
    assert!(!pending.is_empty());
    assert_eq!(pending.take(2), None);
    assert_eq!(pending.take(3), Some(ctx_entry(3)));
    assert_eq!(pending.take(1), Some(ctx_entry(1)));
    assert!(pending.is_empty());
}

#[test]
fn pending_completions_not_found() {
    let mut pending = PendingCompletions::new();
    assert_eq!(pending.dispatch(9, &vec![ctx_entry(1)]), None);
    assert_eq!(pending.take(1), Some(ctx_entry(1)));
}

#[test]
fn read_steps() {
    assert_eq!(read_step(Ok(3)), ReadStep::Done(3));
    assert_eq!(read_step(Err(Error { code: FI_EAGAIN })), ReadStep::Retry);
    assert_eq!(read_step(Err(Error { code: 5 })), ReadStep::Fail(Error { code: 5 }));
}

#[test]
fn message_context_swap() {
    let mut msg_context: usize = 0x100;
    let async_ctx = AsyncCtx::for_message(msg_context);
    assert_eq!(async_ctx.user_ctx, Some(0x100));
    let swap = MsgContextSwap::begin(&mut msg_context, 0x200);
    assert_eq!(msg_context, 0x200);
    assert_eq!(swap.saved(), 0x100);
    let swap = swap.after_post(&mut msg_context, Ok(())).unwrap();
    assert_eq!(msg_context, 0x200);
    let done = swap.finish(&mut msg_context, Ok(ctx_entry(0x200)));
    assert_eq!(done, Ok(ctx_entry(0x200)));
    assert_eq!(msg_context, 0x100);
    assert_eq!(AsyncCtx::for_message(0).user_ctx, None);
}

#[test]
fn message_context_restored_when_post_fails() {
    let mut msg_context: usize = 0x100;
    let swap = MsgContextSwap::begin(&mut msg_context, 0x200);
    assert!(matches!(swap.after_post(&mut msg_context, Err(Error { code: FI_EAGAIN })), Err(Error { code: FI_EAGAIN })));
    assert_eq!(msg_context, 0x100);
    let swap = MsgContextSwap::begin(&mut msg_context, 0x300);
    let swap = swap.after_post(&mut msg_context, Ok(())).unwrap();
    let failed: Result<SingleCompletion, Error> = swap.finish(&mut msg_context, Err(Error { code: 5 }));
    assert_eq!(failed, Err(Error { code: 5 }));
    assert_eq!(msg_context, 0x100);
}

#[test]
fn datatypes_and_collectives() {
    assert_eq!(<u32 as AsFiType>::as_fi_datatype(), DataType::UInt32);
    assert_eq!(<i8 as AsFiType>::as_fi_datatype(), DataType::Int8);
    assert_eq!(<() as AsFiType>::as_fi_datatype(), DataType::Void);
    let expected = if usize::BITS == 64 { DataType::UInt64 } else { DataType::UInt32 };
    assert_eq!(<usize as AsFiType>::as_fi_datatype(), expected);
    let attr = CollectiveAttr::<u64>::new().op(3).max_members(8);
    assert_eq!((attr.op, attr.max_members, attr.datatype), (3, 8, DataType::UInt64));
    let g = MulticastGroupCollective::new(Fid(1), Fid(2), 0).unwrap();
    assert_eq!((g.ep(), g.fid()), (Fid(1), Fid(2)));
}

#[test]
fn poll_fd_setters() {
    let mut p = PollFd::new();
    p.fd(3).events(1).revents(4);
    assert_eq!(p, PollFd { fd: 3, events: 1, revents: 4 });
}
