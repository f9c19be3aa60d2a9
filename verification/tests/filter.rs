//! The filter's cycles, its registry and the graph around it.

use librewave_platform_linux::audio_host::endpoint_plans;
use librewave_platform_linux::audio_host::endpoints::{deliberate_endpoints, EndpointId};
use librewave_platform_linux::audio_host::filter::{
    filter_state_fault, is_silent, result_code, validate_buffer_ranges, BufferRangeError,
    CycleInput, CycleValidator, FaultRecord, FaultRecords, FilterCallbacks, ProcessFault,
    ProcessTiming, SystemCycleState, SystemTracker, FAULT_CAPACITY, FILTER_STATE_ERROR,
    FILTER_STATE_OTHER, FILTER_STATE_PAUSED, FILTER_STATE_STREAMING,
};
use librewave_platform_linux::audio_host::graph::{
    filter_node_name, filter_ports, note_failure, roundtrip_outcome, validate_drivers,
    validate_endpoints, GraphError, GraphNodes, ObservedDrivers, TeardownState,
};

fn bits(samples: &[f32]) -> Vec<u32> {
    samples.iter().map(|sample| sample.to_bits()).collect()
}

#[test]
fn filter_state_errors_and_unexpected_departures_are_attempt_faults() {
    assert_eq!(filter_state_fault(FILTER_STATE_OTHER, FILTER_STATE_PAUSED, false, false), None);
    assert_eq!(
        filter_state_fault(FILTER_STATE_OTHER, FILTER_STATE_ERROR, false, false),
        Some(ProcessFault::FilterError)
    );
    assert_eq!(
        filter_state_fault(FILTER_STATE_STREAMING, FILTER_STATE_PAUSED, true, false,),
        Some(ProcessFault::Pause)
    );
    assert_eq!(
        filter_state_fault(FILTER_STATE_STREAMING, FILTER_STATE_OTHER, true, false),
        Some(ProcessFault::UnexpectedFilterState)
    );
    assert_eq!(
        filter_state_fault(FILTER_STATE_STREAMING, FILTER_STATE_ERROR, true, true),
        None
    );
}

#[test]
fn buffer_ranges_reject_shifted_overlap() {
    let base: usize = 0x1000;
    let shifted = base + 4;

    assert_eq!(validate_buffer_ranges(&[base, shifted], 4), Err(BufferRangeError::Overlap));
}

#[test]
fn buffer_ranges_reject_address_extent_overflow() {
    let aligned_max = usize::MAX & !(std::mem::align_of::<f32>() - 1);

    assert_eq!(validate_buffer_ranges(&[aligned_max], 1), Err(BufferRangeError::ExtentOverflow));
}

#[test]
fn buffer_ranges_accept_adjacent_allocations() {
    let first: usize = 0x1000;
    let second = first + 4 * 4;

    assert_eq!(validate_buffer_ranges(&[first, second], 4), Ok(()));
}

#[test]
fn buffer_ranges_reject_null_and_misaligned_addresses() {
    assert_eq!(validate_buffer_ranges(&[0], 4), Err(BufferRangeError::Null));
    assert_eq!(validate_buffer_ranges(&[0x1002], 4), Err(BufferRangeError::Misaligned));
    assert_eq!(
        validate_buffer_ranges(&[0x1000], usize::MAX / 2),
        Err(BufferRangeError::ExtentOverflow)
    );
    assert_eq!(validate_buffer_ranges(&[0x1000; 9], 1), Err(BufferRangeError::ExtentOverflow));
}

#[test]
fn timing_rejects_quantum_and_position_changes() {
    let mut validator =
        CycleValidator { expected_driver: 25, expected_quantum: 128, previous_position: None };
    assert_eq!(
        validator.validate(ProcessTiming {
            driver_id: 25,
            rate: 48_000,
            position: 256,
            quantum: 128,
        }),
        Ok(())
    );
    assert_eq!(
        validator.validate(ProcessTiming {
            driver_id: 25,
            rate: 48_000,
            position: 384,
            quantum: 64,
        }),
        Err((ProcessFault::InvalidQuantum, 128))
    );
    assert_eq!(
        validator.validate(ProcessTiming {
            driver_id: 25,
            rate: 48_000,
            position: 512,
            quantum: 128,
        }),
        Err((ProcessFault::PositionDiscontinuity, 384))
    );
}

#[test]
fn timing_rejects_driver_and_rate_changes() {
    let mut validator =
        CycleValidator { expected_driver: 25, expected_quantum: 128, previous_position: None };
    let timing = ProcessTiming { driver_id: 25, rate: 48_000, position: 0, quantum: 128 };
    assert_eq!(
        validator.validate(ProcessTiming { driver_id: 26, ..timing }),
        Err((ProcessFault::DriverChanged, 25))
    );
    assert_eq!(
        validator.validate(ProcessTiming { rate: 44_100, ..timing }),
        Err((ProcessFault::RateChanged, 48_000))
    );
    assert_eq!(validator.validate(timing), Ok(()));
}

#[test]
fn system_link_generation_has_one_priming_and_drain_cycle() {
    let silence = bits(&[0.0; 2]);
    let active = bits(&[0.25; 2]);
    let mut tracker = SystemTracker { observed_word: 0, state: SystemCycleState::Idle };

    assert_eq!(tracker.advance(0, &silence, &silence), Ok(SystemCycleState::Idle));
    assert_eq!(tracker.advance(3, &silence, &silence), Ok(SystemCycleState::Priming));
    assert_eq!(tracker.advance(3, &active, &active), Ok(SystemCycleState::Active));
    assert_eq!(tracker.advance(4, &active, &active), Ok(SystemCycleState::Draining));
    assert_eq!(tracker.advance(4, &silence, &silence), Ok(SystemCycleState::Idle));
    assert_eq!(tracker.advance(4, &active, &active), Err(()));
}

#[test]
fn negative_zero_is_silence() {
    assert!(is_silent(&bits(&[0.0, -0.0])));
    assert!(!is_silent(&bits(&[0.0, f32::MIN_POSITIVE])));
    assert!(!is_silent(&bits(&[f32::NAN])));
}

#[test]
fn fault_records_are_fixed_capacity() {
    let mut records = FaultRecords::new();
    let record = FaultRecord {
        fault: ProcessFault::MissingBuffer,
        driver_id: 25,
        position: 128,
        expected_position: 0,
        quantum: 128,
        missing_mask: 1,
    };
    for _ in 0..FAULT_CAPACITY + 2 {
        records.push(record);
    }
    let (snapshot, dropped) = records.snapshot();
    assert!(snapshot.iter().all(Option::is_some));
    assert_eq!(dropped, 2);
}

#[test]
fn a_faulted_filter_runs_no_further_cycle() {
    let input = CycleInput {
        driver_id: 25,
        rate_num: 1,
        rate_denom: 48_000,
        position: 0,
        quantum: 128,
        missing_mask: 0,
    };
    let buffers: Vec<usize> = (0..8).map(|port| 0x1000 + port * 0x1000).collect();
    let mut callbacks = FilterCallbacks::new(25, 128);
    assert!(callbacks.enter());
    assert!(callbacks.begin_cycle(input, Some(&buffers)).is_ok());
    let silence = bits(&[0.0; 128]);
    assert_eq!(
        callbacks.follow_links(input, 0, &silence, &silence),
        Ok(SystemCycleState::Idle)
    );
    assert!(!callbacks.finish_cycle(input, Ok(())));
    callbacks.leave();
    assert_eq!(callbacks.process_cycles, 1);

    assert!(callbacks.enter());
    assert_eq!(
        callbacks.begin_cycle(input, Some(&buffers)),
        Err(ProcessFault::PositionDiscontinuity)
    );
    callbacks.leave();
    assert!(!callbacks.enter());
    assert_eq!(callbacks.faults.slots[0].expect("record").expected_position, 128);
}

#[test]
fn negative_results_are_failures() {
    assert_eq!(result_code(0, "connect"), Ok(()));
    assert_eq!(
        result_code(-22, "connect"),
        Err(String::from("connect failed with PipeWire result -22"))
    );
}

#[test]
fn exact_endpoint_contract_is_required() {
    let plans = endpoint_plans(&deliberate_endpoints()).expect("deliberate endpoints");
    assert!(validate_endpoints(&plans).is_ok());
    assert!(matches!(
        validate_endpoints(&plans[..3]),
        Err(GraphError::InvalidEndpointContract)
    ));
}

#[test]
fn permanent_filter_port_contract_is_exact() {
    assert_eq!(filter_ports().len(), 8);
    assert_eq!(filter_ports()[0], (0, false, "system_FL", "FL"));
    assert_eq!(filter_ports()[7], (7, true, "stream_FR", "FR"));
    assert_eq!(filter_node_name(), "librewave.internal.mixer");
}

#[test]
fn endpoint_identity_is_not_reordered() {
    let plans = endpoint_plans(&deliberate_endpoints()).expect("deliberate endpoints");
    assert_eq!(plans[0].endpoint, EndpointId::System);
    assert_eq!(plans[3].endpoint, EndpointId::StreamMix);
}

#[test]
fn failed_teardown_result_is_terminal() {
    let mut state = TeardownState::default();
    let failure = || Err(GraphError::CallbackDidNotQuiesce);

    assert_eq!(state.finish(failure()), failure());
    assert_eq!(state.terminal(), Some(failure()));
    assert_eq!(state.finish(Ok(())), failure());
}

#[test]
fn only_the_first_teardown_failure_is_kept() {
    let mut first = None;
    note_failure(&mut first, Ok(()));
    assert_eq!(first, None);
    note_failure(&mut first, Err(GraphError::RoundtripTimeout));
    note_failure(&mut first, Err(GraphError::CallbackDidNotQuiesce));
    assert_eq!(first, Some(GraphError::RoundtripTimeout));
}

#[test]
fn roundtrips_and_drivers_are_judged() {
    assert_eq!(roundtrip_outcome(None, true), Ok(()));
    assert_eq!(roundtrip_outcome(None, false), Err(GraphError::RoundtripTimeout));
    assert_eq!(
        roundtrip_outcome(Some(String::from("gone")), true),
        Err(GraphError::PipeWire(String::from("gone")))
    );
    let nodes = GraphNodes { system: 30, microphone: 31, monitor: 32, stream: 33, filter: 34 };
    let plans = endpoint_plans(&deliberate_endpoints()).expect("deliberate endpoints");
    let driven = ObservedDrivers {
        microphone: Some(30),
        monitor: Some(30),
        stream: Some(30),
        filter: Some(30),
    };
    assert_eq!(validate_drivers(nodes, &plans, driven), Ok(()));
    let mismatch = |node: &str, actual| {
        Err(GraphError::DriverMismatch { node: node.to_string(), expected: 30, actual })
    };
    assert_eq!(
        validate_drivers(nodes, &plans, ObservedDrivers { monitor: None, filter: None, ..driven }),
        mismatch(plans[2].node_name, None)
    );
    assert_eq!(
        validate_drivers(nodes, &plans, ObservedDrivers { filter: Some(31), ..driven }),
        mismatch("librewave.internal.mixer", Some(31))
    );
}
