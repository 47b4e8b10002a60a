use rustable_drone::drone::is_valid_drop_rate;
use rustable_drone::network::{contains_id, except, remove_every, reverse_of};
use rustable_drone::{
    DroneSettings, FilterType, PacketFilter, SleepDuration, SourceRoutingHeader,
};

fn header(hop_index: usize, hops: &[u8]) -> SourceRoutingHeader {
    SourceRoutingHeader { hop_index, hops: hops.to_vec() }
}

#[test]
fn default_filter_is_an_empty_blacklist() {
    let filter = PacketFilter::default();
    assert!(filter.ids().is_empty());
    assert_eq!(filter.filter_type(), FilterType::BlackList);
    assert!(filter.is_allowed(0));
    assert!(filter.is_allowed(255));
}

#[test]
fn add_lists_an_id_once() {
    let mut filter = PacketFilter::default();
    filter.add(4);
    filter.add(9);
    filter.add(4);
    assert_eq!(filter.ids(), &vec![4, 9]);
}

#[test]
fn remove_takes_every_occurrence() {
    let mut filter = PacketFilter::default();
    filter.set(vec![7, 3, 7, 5]);
    filter.remove(7);
    assert_eq!(filter.ids(), &vec![3, 5]);
    filter.remove(8);
    assert_eq!(filter.ids(), &vec![3, 5]);
    filter.remove(7);
    assert_eq!(filter.ids(), &vec![3, 5]);
}

#[test]
fn remove_is_an_idempotent_delete() {
    let mut f = PacketFilter::default();
    f.set(vec![1, 1]);
    f.remove(1);
    assert!(f.is_allowed(1));
    assert!(f.ids().is_empty());
    let once = f.clone();
    f.remove(1);
    assert_eq!(f, once);
    f.set(vec![1, 2, 1]);
    f.set_type(FilterType::WhiteList);
    f.remove(1);
    assert!(!f.is_allowed(1));
    assert!(f.is_allowed(2));
    assert_eq!(f.filter_type(), FilterType::WhiteList);
}

#[test]
fn blacklist_blocks_the_listed() {
    let mut filter = PacketFilter::default();
    filter.add(2);
    assert!(!filter.is_allowed(2));
    assert!(filter.is_allowed(3));
}

#[test]
fn whitelist_allows_only_the_listed() {
    let mut filter = PacketFilter::default();
    filter.add(2);
    filter.set_type(FilterType::WhiteList);
    assert!(filter.is_allowed(2));
    assert!(!filter.is_allowed(3));
    assert_eq!(filter.ids(), &vec![2]);
}

#[test]
fn set_then_query_under_both_types() {
    let mut filter = PacketFilter::default();
    filter.add(99);
    filter.set(vec![10, 20, 30]);
    filter.set_type(FilterType::WhiteList);
    assert!(filter.is_allowed(10));
    assert!(filter.is_allowed(30));
    assert!(!filter.is_allowed(99));
    filter.set_type(FilterType::BlackList);
    assert!(!filter.is_allowed(10));
    assert!(!filter.is_allowed(20));
    assert!(filter.is_allowed(99));
}

#[test]
fn clear_then_blacklist_allows_everyone() {
    let mut filter = PacketFilter::default();
    filter.set(vec![10, 20, 30]);
    filter.set_type(FilterType::WhiteList);
    filter.clear();
    assert_eq!(filter.filter_type(), FilterType::WhiteList);
    assert!(!filter.is_allowed(10));
    filter.set_type(FilterType::BlackList);
    for id in 0..=255u8 {
        assert!(filter.is_allowed(id));
    }
}

#[test]
fn default_settings() {
    let settings = DroneSettings::default();
    assert_eq!(
        settings,
        DroneSettings {
            log_to_stdout: false,
            sleep_duration: SleepDuration { secs: 0, nanos: 0 },
            await_queued_packets_on_crash: true,
            filter_packets: true,
            send_nack_on_filtered_packet: false,
            quack: false,
        }
    );
    assert!(settings.sleep_duration.is_zero());
    assert!(SleepDuration::zero().is_zero());
    assert!(!SleepDuration { secs: 0, nanos: 1 }.is_zero());
    assert!(!SleepDuration { secs: 1, nanos: 0 }.is_zero());
}

#[test]
fn hops_around_the_cursor() {
    let h = header(1, &[10, 20, 30]);
    assert_eq!(h.previous_hop(), Some(10));
    assert_eq!(h.current_hop(), Some(20));
    assert_eq!(h.next_hop(), Some(30));
    assert!(!h.is_last_hop());
}

#[test]
fn cursor_on_the_last_hop() {
    let h = header(2, &[10, 20, 30]);
    assert_eq!(h.previous_hop(), Some(20));
    assert_eq!(h.current_hop(), Some(30));
    assert_eq!(h.next_hop(), None);
    assert!(h.is_last_hop());
}

#[test]
fn cursor_at_the_edges() {
    let start = header(0, &[10, 20]);
    assert_eq!(start.previous_hop(), None);
    assert_eq!(start.next_hop(), Some(20));
    let behind = header(2, &[10, 20]);
    assert_eq!(behind.previous_hop(), Some(20));
    assert_eq!(behind.current_hop(), None);
    assert_eq!(behind.next_hop(), None);
    assert!(!behind.is_last_hop());
    let beyond = header(3, &[10, 20]);
    assert_eq!(beyond.previous_hop(), None);
    let empty = SourceRoutingHeader::empty_route();
    assert_eq!(empty, header(0, &[]));
    assert!(!empty.is_last_hop());
    assert_eq!(empty.next_hop(), None);
    let huge = header(usize::MAX, &[1]);
    assert_eq!(huge.next_hop(), None);
    assert_eq!(huge.previous_hop(), None);
}

#[test]
fn reversed_header_starts_at_one() {
    let h = header(2, &[10, 20, 30, 40]);
    assert_eq!(h.get_reversed(), header(1, &[40, 30, 20, 10]));
    assert_eq!(header(0, &[]).get_reversed(), header(1, &[]));
    assert_eq!(reverse_of(&vec![1, 2, 3]), vec![3, 2, 1]);
}

#[test]
fn list_helpers() {
    let list = vec![5, 6, 5, 7];
    assert!(contains_id(&list, 7));
    assert!(!contains_id(&list, 8));
    assert_eq!(except(&list, 5), vec![6, 7]);
    assert_eq!(except(&list, 9), vec![5, 6, 5, 7]);
    assert_eq!(except(&vec![], 9), Vec::<u8>::new());
    let mut list = list;
    assert!(remove_every(&mut list, 5));
    assert_eq!(list, vec![6, 7]);
    assert!(!remove_every(&mut list, 5));
    assert!(!remove_every(&mut list, 1));
    assert_eq!(list, vec![6, 7]);
}

#[test]
fn drop_rates_from_zero_to_one_are_valid() {
    assert!(is_valid_drop_rate(0.0f32.to_bits()));
    assert!(is_valid_drop_rate((-0.0f32).to_bits()));
    assert!(is_valid_drop_rate(0.5f32.to_bits()));
    assert!(is_valid_drop_rate(1.0f32.to_bits()));
    assert!(is_valid_drop_rate(f32::MIN_POSITIVE.to_bits()));
    assert!(is_valid_drop_rate(0x3f7f_ffff));
    assert_eq!(1.0f32.to_bits(), 0x3f80_0000);
}

#[test]
fn other_drop_rates_are_not() {
    assert!(!is_valid_drop_rate(0x3f80_0001));
    assert!(!is_valid_drop_rate(1.5f32.to_bits()));
    assert!(!is_valid_drop_rate((-0.1f32).to_bits()));
    assert!(!is_valid_drop_rate((-1.0f32).to_bits()));
    assert!(!is_valid_drop_rate(f32::INFINITY.to_bits()));
    assert!(!is_valid_drop_rate(f32::NEG_INFINITY.to_bits()));
    assert!(!is_valid_drop_rate(f32::NAN.to_bits()));
    assert!(!is_valid_drop_rate(u32::MAX));
}
