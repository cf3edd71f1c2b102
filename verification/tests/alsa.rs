use playback::alsa::{
    open_device, AlsaSink, DeviceRequest, PcmProgress, PcmReply, PcmRequest, PcmWrite,
    SetupProgress, SinkError,
};

fn show(request: DeviceRequest<'_>) -> String {
    match request {
        DeviceRequest::Open { name, nonblock } => format!("open {} {}", name, nonblock),
        DeviceRequest::AnyParameters => "any".to_string(),
        DeviceRequest::SetChannels(channels) => format!("channels {}", channels),
        DeviceRequest::SetRateNearest(rate) => format!("rate {}", rate),
        DeviceRequest::SetFormatS16 => "s16".to_string(),
        DeviceRequest::SetBufferSize(frames) => format!("buffer {}", frames),
        DeviceRequest::SetPeriodSizeNearest(frames) => format!("period {}", frames),
        DeviceRequest::SetAccessInterleaved => "interleaved".to_string(),
        DeviceRequest::Install => "install".to_string(),
    }
}

#[test]
fn a_device_is_set_up_step_by_step() {
    let mut steps: Vec<String> = Vec::new();
    let mut setup = open_device("hw:0");
    loop {
        steps.push(show(setup.request()));
        match setup.supply::<u8>(Ok(())) {
            SetupProgress::More(next) => setup = next,
            SetupProgress::Ready => break,
            SetupProgress::Failed(_) => panic!("no step failed"),
        }
    }
    assert_eq!(
        steps,
        vec![
            "open hw:0 false",
            "any",
            "channels 2",
            "rate 44100",
            "s16",
            "buffer 32792",
            "period 16396",
            "interleaved",
            "install"
        ]
    );
}

#[test]
fn a_failed_step_ends_the_setup() {
    let setup = open_device("hw:0");
    let setup = match setup.supply::<&str>(Ok(())) {
        SetupProgress::More(next) => next,
        _ => panic!("steps are left"),
    };
    assert!(matches!(setup.supply(Err("busy")), SetupProgress::Failed("busy")));
}

#[test]
fn a_sink_has_a_default_device() {
    let sink: AlsaSink<u8> = AlsaSink::open(None);
    assert_eq!(sink.1, "default");
    assert!(sink.0.is_none());
    let sink: AlsaSink<u8> = AlsaSink::open(Some("hw:1".to_string()));
    assert_eq!(sink.1, "hw:1");
}

#[test]
fn a_sink_opens_its_device_once() {
    let mut sink: AlsaSink<u8> = AlsaSink::open(Some("hw:1".to_string()));
    assert_eq!(show(sink.start().unwrap().request()), "open hw:1 false");
    assert_eq!(sink.started::<u8>(Err(1)), Err(SinkError::OpenFailed));
    assert!(sink.0.is_none());
    assert_eq!(sink.started::<u8>(Ok(5)), Ok(()));
    assert!(sink.start().is_none());
    let (device, _, _) = sink.write::<u8>(&[]);
    *device += 1;
    assert_eq!(sink.0, Some(6));
    assert_eq!(sink.1, "hw:1");
    assert_eq!(sink.stop(), Ok(()));
    assert!(sink.0.is_none());
    assert!(sink.start().is_some());
    assert_eq!(SinkError::OpenFailed.message(), "Alsa error: PCM open failed");
}

/// The calls that a write makes on a device, and its result.
fn whole_write(
    data: &[i16],
    outcome: Result<usize, u8>,
) -> (Vec<String>, Result<(), SinkError>, AlsaSink<u8>) {
    let mut sink: AlsaSink<u8> = AlsaSink::open(Some("hw:1".to_string()));
    assert_eq!(sink.started::<u8>(Ok(5)), Ok(()));
    let mut calls: Vec<String> = Vec::new();
    let (device, mut write, mut request) = sink.write::<u8>(data);
    assert_eq!(*device, 5);
    loop {
        let reply = match request {
            PcmRequest::Write(samples) => {
                calls.push(format!("write {:?}", samples));
                PcmReply::Written(outcome)
            }
            PcmRequest::Recover { error, silent } => {
                calls.push(format!("recover {} {}", error, silent));
                PcmReply::Recovered
            }
        };
        match write.supply(reply) {
            PcmProgress::Ask(next, call) => {
                write = next;
                request = call;
            }
            PcmProgress::Done(result) => return (calls, result, sink),
        }
    }
}

#[test]
fn all_samples_are_written_in_one_call() {
    let (calls, result, sink) = whole_write(&[1, -2, 3, -4], Ok(2));
    assert_eq!(calls, vec!["write [1, -2, 3, -4]"]);
    assert_eq!(result, Ok(()));
    assert_eq!(sink.0, Some(5));
    assert_eq!(sink.1, "hw:1");
    // A device that takes fewer frames is not asked again.
    let (calls, result, _) = whole_write(&[1, -2, 3, -4], Ok(0));
    assert_eq!(calls, vec!["write [1, -2, 3, -4]"]);
    assert_eq!(result, Ok(()));
}

#[test]
fn a_failed_write_calls_for_recovery() {
    let (calls, result, sink) = whole_write(&[1, -2], Err(32));
    assert_eq!(calls, vec!["write [1, -2]", "recover 32 false"]);
    assert_eq!(result, Ok(()));
    assert_eq!(sink.0, Some(5));
    assert_eq!(sink.1, "hw:1");
    assert!(matches!(
        PcmWrite::Writing.supply::<u8>(PcmReply::Written(Ok(1))),
        PcmProgress::Done(Ok(()))
    ));
}
