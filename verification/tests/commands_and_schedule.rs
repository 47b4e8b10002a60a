use rand::Rng;
use rustable_drone::{
    Ack, CommandOutcome, ConfigError, DroneCommand, DroneSettings, FilterCommand, FilterType,
    FloodRequest, Fragment, Nack, NackType, NodeType, Outcome, Packet, PacketType, Phase, RustableCommand, RustableDrone,
    SettingsCommand, SleepDuration, SourceRoutingHeader, Step,
};

fn node(id: u8, neighbors: &[u8]) -> RustableDrone {
    match RustableDrone::new(id, neighbors.to_vec(), 0.25f32.to_bits()) {
        Ok(node) => node,
        Err(e) => panic!("{:?}", e),
    }
}

fn drone(command: DroneCommand) -> RustableCommand {
    RustableCommand::DroneCommand(command)
}

#[test]
fn a_new_node() {
    let n = node(4, &[1, 2, 1, 3, 2]);
    assert_eq!(n.id(), 4);
    assert_eq!(n.neighbors(), &vec![1, 2, 3]);
    assert_eq!(n.drop_rate(), 0.25f32.to_bits());
    assert_eq!(n.settings, DroneSettings::default());
    assert!(n.filter.ids().is_empty());
    assert_eq!(n.filter.filter_type(), FilterType::BlackList);
    assert!(n.flood_ids().is_empty());
    assert!(!n.has_to_crash());
    assert_eq!(n.phase(), Phase::Running);
}

#[test]
fn a_node_needs_a_probability() {
    for bad in [1.5f32, -0.5, f32::NAN, f32::INFINITY] {
        let made = RustableDrone::new(1, vec![2], bad.to_bits());
        assert_eq!(made.err(), Some(ConfigError::InvalidDropRate(bad.to_bits())));
    }
    for good in [0.0f32, 1.0, 0.3] {
        assert!(RustableDrone::new(1, vec![2], good.to_bits()).is_ok());
    }
}

#[test]
fn add_sender_once() {
    let mut n = node(4, &[1]);
    assert_eq!(n.command_handler(drone(DroneCommand::AddSender(2))), CommandOutcome::Applied);
    assert_eq!(n.neighbors(), &vec![1, 2]);
    assert_eq!(
        n.command_handler(drone(DroneCommand::AddSender(2))),
        CommandOutcome::SenderAlreadyKnown(2)
    );
    assert_eq!(n.neighbors(), &vec![1, 2]);
    assert_eq!(n.add_channel(1), CommandOutcome::SenderAlreadyKnown(1));
    assert_eq!(n.add_channel(9), CommandOutcome::Applied);
    assert_eq!(n.neighbors(), &vec![1, 2, 9]);
}

#[test]
fn remove_sender_clears_it_from_the_filter() {
    let mut n = node(4, &[1, 2, 3]);
    n.filter.set(vec![2, 3]);
    assert_eq!(n.command_handler(drone(DroneCommand::RemoveSender(2))), CommandOutcome::Applied);
    assert_eq!(n.neighbors(), &vec![1, 3]);
    assert_eq!(n.filter.ids(), &vec![3]);
    assert_eq!(
        n.command_handler(drone(DroneCommand::RemoveSender(2))),
        CommandOutcome::SenderUnknown(2)
    );
    assert_eq!(n.neighbors(), &vec![1, 3]);
    assert_eq!(n.filter.ids(), &vec![3]);
}

#[test]
fn remove_sender_clears_every_entry_of_it_from_the_filter() {
    let mut n = node(4, &[1, 2, 3]);
    n.filter.set(vec![2, 3, 2, 1, 2]);
    assert_eq!(n.command_handler(drone(DroneCommand::RemoveSender(2))), CommandOutcome::Applied);
    assert_eq!(n.neighbors(), &vec![1, 3]);
    assert_eq!(n.filter.ids(), &vec![3, 1]);
    assert_eq!(n.filter.filter_type(), FilterType::BlackList);
    assert!(n.filter.is_allowed(2));
    assert!(!n.filter.is_allowed(3));
}

#[test]
fn remove_unknown_sender_leaves_the_filter() {
    let mut n = node(4, &[1]);
    n.filter.add(7);
    assert_eq!(n.remove_channel(7), CommandOutcome::SenderUnknown(7));
    assert_eq!(n.filter.ids(), &vec![7]);
    assert_eq!(n.neighbors(), &vec![1]);
}

#[test]
fn drop_rate_has_to_be_a_probability() {
    let mut n = node(4, &[1]);
    let half = 0.5f32.to_bits();
    assert_eq!(n.command_handler(drone(DroneCommand::SetPacketDropRate(half))), CommandOutcome::Applied);
    assert_eq!(n.drop_rate(), half);
    assert_eq!(f32::from_bits(n.drop_rate()), 0.5);
    for bad in [1.01f32, -0.01, f32::NAN] {
        assert_eq!(
            n.command_handler(drone(DroneCommand::SetPacketDropRate(bad.to_bits()))),
            CommandOutcome::InvalidDropRate(bad.to_bits())
        );
        assert_eq!(n.drop_rate(), half);
    }
    for edge in [0.0f32, 1.0] {
        assert_eq!(
            n.command_handler(drone(DroneCommand::SetPacketDropRate(edge.to_bits()))),
            CommandOutcome::Applied
        );
        assert_eq!(n.drop_rate(), edge.to_bits());
    }
}

#[test]
fn settings_commands() {
    let mut n = node(4, &[1]);
    let span = SleepDuration { secs: 2, nanos: 500 };
    let commands = [
        SettingsCommand::LogToStdout(true),
        SettingsCommand::SleepDuration(span),
        SettingsCommand::AwaitQueuedPacketsOnCrash(false),
        SettingsCommand::FilterPackets(false),
        SettingsCommand::SendNackOnFilteredPackets(true),
    ];
    for command in commands {
        assert_eq!(n.command_handler(RustableCommand::SettingCommand(command)), CommandOutcome::Applied);
    }
    assert_eq!(
        n.settings,
        DroneSettings {
            log_to_stdout: true,
            sleep_duration: span,
            await_queued_packets_on_crash: false,
            filter_packets: false,
            send_nack_on_filtered_packet: true,
            quack: false,
        }
    );
}

#[test]
fn filter_commands() {
    let mut n = node(4, &[1]);
    let run = |n: &mut RustableDrone, c: FilterCommand| {
        assert_eq!(n.command_handler(RustableCommand::FilterCommand(c)), CommandOutcome::Applied);
    };
    run(&mut n, FilterCommand::AddId(5));
    run(&mut n, FilterCommand::AddId(6));
    run(&mut n, FilterCommand::AddId(5));
    assert_eq!(n.filter.ids(), &vec![5, 6]);
    run(&mut n, FilterCommand::RemoveId(5));
    assert_eq!(n.filter.ids(), &vec![6]);
    run(&mut n, FilterCommand::SetList(vec![1, 2, 3]));
    assert_eq!(n.filter.ids(), &vec![1, 2, 3]);
    run(&mut n, FilterCommand::SetType(FilterType::WhiteList));
    assert_eq!(n.filter.filter_type(), FilterType::WhiteList);
    run(&mut n, FilterCommand::Clear);
    assert!(n.filter.ids().is_empty());
    assert_eq!(n.filter.filter_type(), FilterType::WhiteList);
}

#[test]
fn commands_come_before_packets() {
    let n = node(4, &[1]);
    assert_eq!(n.next_step(true, true), Step::ServeCommand);
    assert_eq!(n.next_step(true, false), Step::ServeCommand);
    assert_eq!(n.next_step(false, true), Step::ServePacket);
    assert_eq!(n.next_step(false, false), Step::Wait);
}

#[test]
fn crash_is_a_latch() {
    let mut n = node(4, &[1]);
    assert_eq!(n.command_handler(drone(DroneCommand::Crash)), CommandOutcome::Applied);
    assert!(n.has_to_crash());
    assert_eq!(n.phase(), Phase::Draining);
    n.command_handler(drone(DroneCommand::AddSender(8)));
    n.command_handler(RustableCommand::Quack);
    n.command_handler(drone(DroneCommand::Crash));
    assert!(n.has_to_crash());
}

fn ack_packet(session_id: u64) -> Packet {
    Packet {
        routing_header: SourceRoutingHeader { hop_index: 1, hops: vec![1, 4, 2] },
        session_id,
        pack_type: PacketType::Ack(Ack { fragment_index: 0 }),
    }
}

fn run_until_stop(n: &mut RustableDrone, mut queue: Vec<Packet>, command_ready: bool) -> usize {
    let mut served = 0;
    loop {
        match n.next_step(command_ready, !queue.is_empty()) {
            Step::ServePacket => {
                let packet = queue.remove(0);
                assert!(!matches!(n.packet_handler(packet, false), Outcome::Fatal(_)));
                served += 1;
            }
            Step::Stop => return served,
            step => panic!("unexpected step {:?}", step),
        }
    }
}

#[test]
fn crash_drains_the_buffered_packets() {
    let mut n = node(4, &[1, 2]);
    n.command_handler(drone(DroneCommand::Crash));
    let mut queue: Vec<Packet> = (0..5).map(ack_packet).collect();
    queue.push(Packet {
        routing_header: SourceRoutingHeader::empty_route(),
        session_id: 1,
        pack_type: PacketType::FloodRequest(FloodRequest {
            flood_id: 3,
            initiator_id: 1,
            path_trace: vec![(1, NodeType::Client)],
        }),
    });
    assert_eq!(run_until_stop(&mut n, queue, true), 6);
    assert_eq!(n.next_step(true, false), Step::Stop);
    assert_eq!(n.next_step(false, false), Step::Stop);
}

#[test]
fn crash_without_draining_stops_at_once() {
    let mut n = node(4, &[1, 2]);
    n.command_handler(RustableCommand::SettingCommand(SettingsCommand::AwaitQueuedPacketsOnCrash(false)));
    n.command_handler(drone(DroneCommand::Crash));
    assert_eq!(n.phase(), Phase::Terminated);
    let queue: Vec<Packet> = (0..5).map(ack_packet).collect();
    assert_eq!(run_until_stop(&mut n, queue, true), 0);
    assert_eq!(n.next_step(true, true), Step::Stop);
}

#[test]
fn a_draining_node_ignores_commands() {
    let mut n = node(4, &[1, 2]);
    n.command_handler(drone(DroneCommand::Crash));
    assert_eq!(n.next_step(true, true), Step::ServePacket);
    assert_eq!(n.next_step(true, false), Step::Stop);
}

fn trial_outcomes(pdr: f32, trials: usize) -> (usize, usize) {
    let mut n = node(2, &[1, 3]);
    n.command_handler(drone(DroneCommand::SetPacketDropRate(pdr.to_bits())));
    let mut rng = rand::thread_rng();
    let (mut dropped, mut forwarded) = (0, 0);
    for session_id in 0..trials as u64 {
        let packet = Packet {
            routing_header: SourceRoutingHeader { hop_index: 1, hops: vec![1, 2, 3] },
            session_id,
            pack_type: PacketType::MsgFragment(Fragment {
                fragment_index: 0,
                total_n_fragments: 1,
                length: 2,
                data: vec![7, 7],
            }),
        };
        let roll = n.consults_trial(&packet) && rng.gen_bool(f32::from_bits(n.drop_rate()) as f64);
        match n.packet_handler(packet, roll) {
            Outcome::Forward { to: 3, .. } => forwarded += 1,
            Outcome::Reply { to: 1, packet } => {
                assert_eq!(
                    packet.pack_type,
                    PacketType::Nack(Nack { fragment_index: 0, nack_type: NackType::Dropped })
                );
                dropped += 1
            }
            other => panic!("unexpected outcome {:?}", other),
        }
    }
    (dropped, forwarded)
}

#[test]
fn drop_rate_zero_never_drops() {
    assert_eq!(trial_outcomes(0.0, 500), (0, 500));
}

#[test]
fn drop_rate_one_always_drops() {
    assert_eq!(trial_outcomes(1.0, 500), (500, 0));
}
