use rring::context::{Identifier, Operation, UserData};
use rring::cqe::{interpret_result, Cqe};
use rring::flags::{
    RingFeature, SetupFlag, FEAT_ALL, FEAT_NO_DROP, SETUP_ALL, SETUP_CLAMP, SETUP_IO_POLL,
    SETUP_SQ_POLL,
};
use rring::params::RringParams;
use rring::ring::RingState;
use rring::sqe::{SlotError, SubmissionQueue};
use rring::table::ContextTable;

const EBADF: i32 = 9;

#[test]
fn read_completion_hands_back_its_context() {
    let mut sq = SubmissionQueue::new(4);
    let mut table: ContextTable<Vec<u8>> = ContextTable::new();
    let mut sqe = sq.get_sqe().unwrap();
    sqe.set_user_data(&mut table, UserData::new(Operation::Read, Identifier(1), 3));
    assert_ne!(sqe.user_data(), 0);
    assert_eq!(sq.submit(), 1);
    let n: i32 = 16;
    let cqe = Cqe::from_raw(sqe.user_data(), 12);
    let ud = cqe.get_data(&mut table).unwrap().unwrap();
    assert_eq!(ud.id(), Identifier(1));
    assert_eq!(ud.op(), Operation::Read);
    assert_eq!(ud.srcfd(), 3);
    assert!(cqe.get_result() <= n);
    assert!(!table.is_live(sqe.user_data()));
}

#[test]
fn read_on_bad_descriptor_is_a_tagged_error() {
    let mut table: ContextTable<()> = ContextTable::new();
    let mut sq = SubmissionQueue::new(4);
    let mut sqe = sq.get_sqe().unwrap();
    sqe.set_user_data(&mut table, UserData::new(Operation::Read, Identifier(2), -1));
    sq.submit();
    let cqe = Cqe::from_raw(sqe.user_data(), -EBADF);
    let err = cqe.get_data(&mut table).unwrap_err();
    assert_eq!(err.op(), Operation::Read);
    assert_eq!(err.errno(), 9);
    assert!(!table.is_live(sqe.user_data()));
}

#[test]
fn error_text_names_operation_and_cause() {
    let mut table: ContextTable<()> = ContextTable::new();
    let tag = table.attach(UserData::new(Operation::Write, Identifier(5), -1));
    let err = Cqe::from_raw(tag, -EBADF).get_data(&mut table).unwrap_err();
    let text = err.to_string();
    assert!(text.starts_with("Error when performing IO operation Write: "));
    let cause = std::io::Error::from_raw_os_error(9).to_string();
    assert!(text.ends_with(&cause));
    assert!(text.len() > "Error when performing IO operation Write: 9".len());
}

#[test]
fn fifth_slot_of_four_is_refused_until_submit() {
    let mut sq = SubmissionQueue::new(4);
    for i in 0..4u32 {
        let s = sq.get_sqe().unwrap();
        assert_eq!(s.index(), i);
    }
    assert_eq!(sq.get_sqe().unwrap_err(), SlotError::QueueFull);
    assert_eq!(sq.pending(), 4);
    assert_eq!(sq.submit(), 4);
    assert!(sq.get_sqe().is_ok());
    assert_eq!(sq.pending(), 1);
}

#[test]
fn completion_without_context_yields_none() {
    let mut table: ContextTable<()> = ContextTable::new();
    let mut sq = SubmissionQueue::new(4);
    let sqe = sq.get_sqe().unwrap();
    assert_eq!(sqe.user_data(), 0);
    sq.submit();
    let cqe = Cqe::from_raw(sqe.user_data(), 7);
    assert!(cqe.get_data(&mut table).unwrap().is_none());
    assert_eq!(cqe.get_result(), 7);
    let failed = Cqe::from_raw(0, -EBADF);
    assert!(failed.get_data(&mut table).unwrap().is_none());
    assert_eq!(failed.get_result(), -EBADF);
}

#[test]
fn zero_result_is_success() {
    let mut table: ContextTable<()> = ContextTable::new();
    let tag = table.attach(UserData::new(Operation::Read, Identifier(3), 4));
    let r = Cqe::from_raw(tag, 0).get_data(&mut table);
    assert_eq!(r.unwrap().unwrap().id(), Identifier(3));
}

#[test]
fn most_negative_result_keeps_its_magnitude() {
    let mut table: ContextTable<()> = ContextTable::new();
    let tag = table.attach(UserData::new(Operation::Fsync, Identifier(4), 4));
    let err = Cqe::from_raw(tag, i32::MIN).get_data(&mut table).unwrap_err();
    assert_eq!(err.errno(), 2147483648);
    assert_eq!(err.op(), Operation::Fsync);
    assert_eq!(err.to_string(), "Error when performing IO operation Fsync: unknown error");
}

#[test]
fn payload_comes_back_intact() {
    let mut table: ContextTable<Vec<u8>> = ContextTable::new();
    let id = Identifier(0x0123_4567_89ab_cdef_0011_2233_4455_6677);
    let tag = table.attach(UserData::with_data(Operation::Recv, id, 11, vec![1, 2, 3]));
    assert!(table.is_live(tag));
    let ud = Cqe::from_raw(tag, 3).get_data(&mut table).unwrap().unwrap();
    assert_eq!(ud.id(), id);
    assert_eq!(ud.op(), Operation::Recv);
    assert_eq!(ud.srcfd(), 11);
    assert_eq!(ud.data(), Some(&vec![1, 2, 3]));
    assert!(!table.is_live(tag));
    assert!(table.recover(tag).is_none());
}

#[test]
fn completions_in_any_order_find_their_own_contexts() {
    let mut table: ContextTable<u32> = ContextTable::new();
    let mut tags = Vec::new();
    for i in 0..5u32 {
        tags.push(table.attach(UserData::with_data(Operation::Write, Identifier(100 + i as u128), 7, i)));
    }
    for (k, a) in tags.iter().enumerate() {
        for b in tags.iter().skip(k + 1) {
            assert_ne!(a, b);
        }
    }
    for &k in &[3usize, 0, 4, 1, 2] {
        let ud = Cqe::from_raw(tags[k], 1).get_data(&mut table).unwrap().unwrap();
        assert_eq!(ud.id(), Identifier(100 + k as u128));
        assert_eq!(ud.data(), Some(&(k as u32)));
    }
    for t in &tags {
        assert!(!table.is_live(*t));
    }
}

#[test]
fn freed_entries_are_reused_with_fresh_contexts() {
    let mut table: ContextTable<()> = ContextTable::new();
    let a = table.attach(UserData::new(Operation::Read, Identifier(1), 1));
    let b = table.attach(UserData::new(Operation::Read, Identifier(2), 1));
    assert!(table.recover(a).is_some());
    let c = table.attach(UserData::new(Operation::Close, Identifier(3), 1));
    assert_ne!(c, b);
    assert_eq!(table.recover(c).unwrap().id(), Identifier(3));
    assert_eq!(table.recover(b).unwrap().id(), Identifier(2));
    assert!(table.recover(0).is_none());
}

#[test]
fn detached_context_is_returned_before_submit() {
    let mut ring: RingState<()> = RingState::new(2);
    let mut sqe = ring.get_sqe().unwrap();
    ring.set_user_data(&mut sqe, UserData::new(Operation::Send, Identifier(9), 5));
    let tag = sqe.user_data();
    assert!(ring.is_staged(tag));
    assert!(!ring.is_in_flight(tag));
    let ud = ring.detach_user_data(&mut sqe).unwrap();
    assert_eq!(ud.id(), Identifier(9));
    assert_eq!(sqe.user_data(), 0);
    assert!(!ring.is_staged(tag));
    assert!(ring.detach_user_data(&mut sqe).is_none());
}

#[test]
fn submitted_context_cannot_be_detached() {
    let mut ring: RingState<()> = RingState::new(2);
    let mut sqe = ring.get_sqe().unwrap();
    ring.set_user_data(&mut sqe, UserData::new(Operation::Close, Identifier(10), 6));
    let tag = sqe.user_data();
    assert_eq!(ring.submit(), 1);
    assert!(ring.is_in_flight(tag));
    assert!(ring.detach_user_data(&mut sqe).is_none());
    assert!(ring.is_in_flight(tag));
    let ud = ring.get_data(&Cqe::from_raw(tag, 0)).unwrap().unwrap();
    assert_eq!(ud.id(), Identifier(10));
    assert!(!ring.is_in_flight(tag));
}

#[test]
fn ring_state_batch_of_four() {
    let mut ring: RingState<u8> = RingState::new(4);
    let mut tags = Vec::new();
    for i in 0..4u8 {
        let mut sqe = ring.get_sqe().unwrap();
        ring.set_user_data(&mut sqe, UserData::with_data(Operation::Read, Identifier(i as u128), 3, i));
        tags.push(sqe.user_data());
    }
    assert_eq!(ring.get_sqe().unwrap_err(), SlotError::QueueFull);
    assert_eq!(ring.submit(), 4);
    let fire_and_forget = ring.get_sqe().unwrap();
    assert_eq!(ring.submit(), 1);
    for &k in &[2usize, 0, 3, 1] {
        let ud = ring.get_data(&Cqe::from_raw(tags[k], 8)).unwrap().unwrap();
        assert_eq!(ud.id(), Identifier(k as u128));
        assert_eq!(ud.data(), Some(&(k as u8)));
    }
    let none = ring.get_data(&Cqe::from_raw(fire_and_forget.user_data(), -EBADF));
    assert!(none.unwrap().is_none());
}

#[test]
fn user_data_accessors() {
    let mut ud = UserData::new(Operation::Accept, Identifier(42), 8);
    assert!(ud.data().is_none());
    ud.set_data("x");
    assert_eq!(ud.data(), Some(&"x"));
    assert_eq!(ud.op(), Operation::Accept);
    assert_eq!(ud.id(), Identifier(42));
    assert_eq!(ud.srcfd(), 8);
    assert_eq!(Operation::Openat.name(), "Openat");
}

#[test]
fn flag_sets() {
    assert_eq!(SetupFlag::from_bits(SETUP_SQ_POLL | SETUP_CLAMP).unwrap().bits(), 18);
    assert!(SetupFlag::from_bits(128).is_none());
    assert_eq!(SetupFlag::from_bits_truncate(0xff).bits(), SETUP_ALL);
    assert_eq!(SETUP_ALL, 127);
    let a = SetupFlag::from_bits_truncate(SETUP_IO_POLL);
    let b = SetupFlag::from_bits_truncate(SETUP_SQ_POLL);
    let ab = a.union(b);
    assert!(ab.contains(a) && ab.contains(b));
    assert!(!a.contains(b));
    assert!(a.intersection(b).is_empty());
    assert!(SetupFlag::empty().is_empty());
    assert_eq!(RingFeature::all().bits(), FEAT_ALL);
    assert_eq!(FEAT_ALL, 2047);
    assert_eq!(RingFeature::from_bits_truncate(FEAT_NO_DROP | 4096).bits(), FEAT_NO_DROP);
}

#[test]
fn submitter_thread_settings_need_sq_poll() {
    let mut p = RringParams::new(SetupFlag::from_bits_truncate(SETUP_IO_POLL), RingFeature::empty());
    p.set_sq_thread_cpu(3);
    p.set_sq_thread_idle(1000);
    assert_eq!(p.sq_thread_cpu(), 0);
    assert_eq!(p.sq_thread_idle(), 0);
    let mut q = RringParams::new(SetupFlag::from_bits_truncate(SETUP_SQ_POLL), RingFeature::all());
    q.set_sq_thread_cpu(3);
    q.set_sq_thread_idle(1000);
    assert_eq!(q.sq_thread_cpu(), 3);
    assert_eq!(q.sq_thread_idle(), 1000);
    assert_eq!(q.flags().bits(), SETUP_SQ_POLL);
    assert_eq!(q.features().bits(), FEAT_ALL);
}

#[test]
fn result_codes_by_sign() {
    assert_eq!(interpret_result(0), Ok(0));
    assert_eq!(interpret_result(4096), Ok(4096));
    assert_eq!(interpret_result(i32::MAX), Ok(2147483647));
    assert_eq!(interpret_result(-9), Err(9));
    assert_eq!(interpret_result(-1), Err(1));
    assert_eq!(interpret_result(i32::MIN), Err(2147483648));
}
