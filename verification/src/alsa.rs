//! The ALSA sink: how its device is set up, and when it is open.
use vstd::prelude::*;

verus! {

/// How many samples a frame has: one for each side.
pub const CHANNELS: u32 = 2;

/// How many frames play in a second.
pub const RATE: u32 = 44100;

/// How many frames pass from one interrupt of the device to the next.
pub const PERIOD_SIZE: i32 = 16396;

/// How many frames the device holds: two periods.
pub const BUFFER_SIZE: i32 = PERIOD_SIZE * 2;

/// A step of setting up a device.
pub enum DeviceRequest<'a> {
    /// Open the device of that name for playback.
    Open { name: &'a str, nonblock: bool },
    /// Take up the full range of its hardware parameters.
    AnyParameters,
    /// Narrow them to a number of channels.
    SetChannels(u32),
    /// Narrow them to the nearest rate.
    SetRateNearest(u32),
    /// Narrow them to signed samples of 16 bits.
    SetFormatS16,
    /// Narrow them to a buffer size in frames.
    SetBufferSize(i32),
    /// Narrow them to the nearest period size in frames.
    SetPeriodSizeNearest(i32),
    /// Narrow them to interleaved reading and writing.
    SetAccessInterleaved,
    /// Have the device take them.
    Install,
}

/// The steps of setting up a device, in order.
pub open spec fn device_plan(name: &str) -> Seq<DeviceRequest<'_>> {
    seq![
        DeviceRequest::Open { name, nonblock: false },
        DeviceRequest::AnyParameters,
        DeviceRequest::SetChannels(CHANNELS),
        DeviceRequest::SetRateNearest(RATE),
        DeviceRequest::SetFormatS16,
        DeviceRequest::SetBufferSize(BUFFER_SIZE),
        DeviceRequest::SetPeriodSizeNearest(PERIOD_SIZE),
        DeviceRequest::SetAccessInterleaved,
        DeviceRequest::Install,
    ]
}

/// A device that is being set up.
pub struct DeviceSetup<'a> {
    pub name: &'a str,
    /// How many steps are done.
    pub done: usize,
}

/// Where the outcome of a step leads.
pub enum SetupProgress<'a, E> {
    /// To the next step.
    More(DeviceSetup<'a>),
    /// To a device that is ready.
    Ready,
    /// Nowhere, for the step failed.
    Failed(E),
}

/// Begins to set up the device of a name.
pub fn open_device(dev_name: &str) -> (setup: DeviceSetup<'_>)
    ensures
        setup.name == dev_name,
        setup.done == 0,
        setup.remaining() == device_plan(dev_name),
        setup.wf(),
{
    DeviceSetup { name: dev_name, done: 0 }
}

impl<'a> DeviceSetup<'a> {
    /// Some step is left.
    pub open spec fn wf(self) -> bool {
        self.done < device_plan(self.name).len()
    }

    /// The steps that are left.
    pub open spec fn remaining(self) -> Seq<DeviceRequest<'a>> {
        device_plan(self.name).skip(self.done as int)
    }

    /// Where the outcome of a step leads.
    pub open spec fn after<E>(self, outcome: Result<(), E>) -> SetupProgress<'a, E> {
        match outcome {
            Err(error) => SetupProgress::Failed(error),
            Ok(_) => if self.done + 1 < device_plan(self.name).len() {
                SetupProgress::More(DeviceSetup { name: self.name, done: (self.done + 1) as usize })
            } else {
                SetupProgress::Ready
            },
        }
    }

    /// The step to take.
    pub fn request(&self) -> (request: DeviceRequest<'a>)
        requires
            self.wf(),
        ensures
            request == self.remaining()[0],
    {
        match self.done {
            0 => DeviceRequest::Open { name: self.name, nonblock: false },
            1 => DeviceRequest::AnyParameters,
            2 => DeviceRequest::SetChannels(CHANNELS),
            3 => DeviceRequest::SetRateNearest(RATE),
            4 => DeviceRequest::SetFormatS16,
            5 => DeviceRequest::SetBufferSize(BUFFER_SIZE),
            6 => DeviceRequest::SetPeriodSizeNearest(PERIOD_SIZE),
            7 => DeviceRequest::SetAccessInterleaved,
            _ => DeviceRequest::Install,
        }
    }

    /// Takes the outcome of the step.
    pub fn supply<E>(self, outcome: Result<(), E>) -> (progress: SetupProgress<'a, E>)
        requires
            self.wf(),
        ensures
            progress == self.after(outcome),
            progress matches SetupProgress::More(next) ==> next.wf(),
    {
        match outcome {
            Err(error) => SetupProgress::Failed(error),
            Ok(_) => {
                if self.done < 8 {
                    SetupProgress::More(DeviceSetup { name: self.name, done: self.done + 1 })
                } else {
                    SetupProgress::Ready
                }
            },
        }
    }
}

/// A device of any name is set up in nine steps: it is opened for playback in blocking mode, and
/// its parameters are narrowed to two channels, 44100 frames a second, signed samples of 16 bits,
/// a buffer of 32792 frames, periods of 16396 frames, and interleaved access, before it takes
/// them. Each step has its place.
pub proof fn devices_are_set_up_in_nine_steps<'a>(setup: DeviceSetup<'a>)
    ensures
        setup.wf() <==> setup.done < 9,
        setup.wf() ==> setup.remaining().len() == 9 - setup.done,
        setup.wf() ==> setup.remaining()[0] == (match setup.done {
            0 => DeviceRequest::Open { name: setup.name, nonblock: false },
            1 => DeviceRequest::AnyParameters,
            2 => DeviceRequest::SetChannels(2),
            3 => DeviceRequest::SetRateNearest(44100),
            4 => DeviceRequest::SetFormatS16,
            5 => DeviceRequest::SetBufferSize(32792),
            6 => DeviceRequest::SetPeriodSizeNearest(16396),
            7 => DeviceRequest::SetAccessInterleaved,
            _ => DeviceRequest::Install,
        }),
{
}

/// A step that succeeds leads to the next one, the last to a device that is ready; a step that
/// fails ends the setup with its error. The name stays.
pub proof fn steps_follow_each_other<'a, E>(setup: DeviceSetup<'a>, error: E)
    requires
        setup.wf(),
    ensures
        setup.done < 8 ==> setup.after::<E>(Ok(())) == SetupProgress::<'a, E>::More(
            DeviceSetup { name: setup.name, done: (setup.done + 1) as usize },
        ),
        setup.done == 8 ==> setup.after::<E>(Ok(())) == SetupProgress::<'a, E>::Ready,
        setup.after::<E>(Err(error)) == SetupProgress::<'a, E>::Failed(error),
{
}

/// Where the outcomes of some steps lead, one after the other, until the device is ready or a
/// step fails.
pub open spec fn setup_after<'a, E>(
    setup: DeviceSetup<'a>,
    outcomes: Seq<Result<(), E>>,
) -> SetupProgress<'a, E>
    decreases outcomes.len(),
{
    if outcomes.len() == 0 {
        SetupProgress::More(setup)
    } else {
        match setup.after(outcomes[0]) {
            SetupProgress::More(next) => setup_after(next, outcomes.drop_first()),
            progress => progress,
        }
    }
}

/// A device is ready once all steps that are left succeed.
pub proof fn all_steps_make_a_device_ready<'a, E>(
    setup: DeviceSetup<'a>,
    outcomes: Seq<Result<(), E>>,
)
    requires
        setup.wf(),
        outcomes.len() == device_plan(setup.name).len() - setup.done,
        forall|i: int| 0 <= i < outcomes.len() ==> (#[trigger] outcomes[i]) is Ok,
    ensures
        setup_after(setup, outcomes) == SetupProgress::<'a, E>::Ready,
    decreases outcomes.len(),
{
    assert(outcomes[0] is Ok);
    if outcomes.len() > 1 {
        let rest = outcomes.drop_first();
        assert forall|i: int| 0 <= i < rest.len() implies (#[trigger] rest[i]) is Ok by {
            assert(outcomes[i + 1] is Ok);
        }
        all_steps_make_a_device_ready(setup.after(outcomes[0])->More_0, rest);
    }
}

/// The first step that fails ends the setup with its error, whatever would come after it.
pub proof fn the_first_failed_step_decides<'a, E>(
    setup: DeviceSetup<'a>,
    outcomes: Seq<Result<(), E>>,
    failed: int,
)
    requires
        setup.wf(),
        0 <= failed < outcomes.len(),
        failed < device_plan(setup.name).len() - setup.done,
        forall|i: int| 0 <= i < failed ==> (#[trigger] outcomes[i]) is Ok,
        outcomes[failed] is Err,
    ensures
        setup_after(setup, outcomes) == SetupProgress::<'a, E>::Failed(outcomes[failed]->Err_0),
    decreases failed,
{
    if failed > 0 {
        assert(outcomes[0] is Ok);
        let rest = outcomes.drop_first();
        assert forall|i: int| 0 <= i < failed - 1 implies (#[trigger] rest[i]) is Ok by {
            assert(outcomes[i + 1] is Ok);
        }
        the_first_failed_step_decides(setup.after(outcomes[0])->More_0, rest, failed - 1);
    }
}

/// Why a sink could not be started.
#[derive(Clone, Copy, Debug, PartialEq, Eq, Structural)]
pub enum SinkError {
    OpenFailed,
}

impl SinkError {
    /// The error in words.
    pub fn message(&self) -> (text: &'static str)
        ensures
            text@ == "Alsa error: PCM open failed"@,
    {
        "Alsa error: PCM open failed"
    }
}

/// A call that a write makes on the device.
pub enum PcmRequest<'d, E> {
    /// Write interleaved samples.
    Write(&'d [i16]),
    /// Recover from an error, silently or with a word on the error output.
    Recover { error: E, silent: bool },
}

/// What came of the call.
pub enum PcmReply<E> {
    /// So many frames were written, or none for an error.
    Written(Result<usize, E>),
    /// The device recovered.
    Recovered,
}

/// Where that leads a write.
pub enum PcmProgress<'d, E> {
    /// To another call.
    Ask(PcmWrite, PcmRequest<'d, E>),
    /// To its end, with its result.
    Done(Result<(), SinkError>),
}

/// A write that is under way: what it is waiting for.
#[derive(Clone, Copy, Debug, PartialEq, Eq, Structural)]
pub enum PcmWrite {
    Writing,
    Recovering,
}

impl PcmWrite {
    /// Whether a reply is what the write is waiting for.
    pub open spec fn answered_by<E>(self, reply: PcmReply<E>) -> bool {
        match self {
            PcmWrite::Writing => reply is Written,
            PcmWrite::Recovering => reply is Recovered,
        }
    }

    /// Where a reply leads: an error has the device recover, which may say so; otherwise the
    /// write is done, whether or not all samples were taken.
    pub open spec fn after<'d, E>(self, reply: PcmReply<E>) -> PcmProgress<'d, E> {
        match reply {
            PcmReply::Written(Err(error)) => PcmProgress::Ask(
                PcmWrite::Recovering,
                PcmRequest::Recover { error, silent: false },
            ),
            _ => PcmProgress::Done(Ok(())),
        }
    }

    /// Takes a reply.
    pub fn supply<'d, E>(self, reply: PcmReply<E>) -> (progress: PcmProgress<'d, E>)
        requires
            self.answered_by(reply),
        ensures
            progress == self.after::<E>(reply),
    {
        match reply {
            PcmReply::Written(Err(error)) => PcmProgress::Ask(
                PcmWrite::Recovering,
                PcmRequest::Recover { error, silent: false },
            ),
            _ => PcmProgress::Done(Ok(())),
        }
    }
}

/// A write, whose calls are met with the outcome of writing and then with recovery where that is
/// asked for: the calls it makes on the device, and its result.
pub open spec fn whole_write<'d, E>(data: &'d [i16], outcome: Result<usize, E>) -> (
    Seq<PcmRequest<'d, E>>,
    Option<Result<(), SinkError>>,
) {
    let first = PcmRequest::Write(data);
    match PcmWrite::Writing.after::<E>(PcmReply::Written(outcome)) {
        PcmProgress::Done(result) => (seq![first], Some(result)),
        PcmProgress::Ask(write, second) => match write.after::<E>(PcmReply::Recovered) {
            PcmProgress::Done(result) => (seq![first, second], Some(result)),
            PcmProgress::Ask(_, _) => (seq![first, second], None),
        },
    }
}

/// A write hands all its samples to the device in one call. An error of that call is recovered
/// from once, not silently, and the samples are not written again. The write succeeds either way.
pub proof fn samples_are_written_once<'d, E>(data: &'d [i16], outcome: Result<usize, E>)
    ensures
        whole_write(data, outcome).0 == (match outcome {
            Ok(_) => seq![PcmRequest::<'d, E>::Write(data)],
            Err(error) => seq![
                PcmRequest::<'d, E>::Write(data),
                PcmRequest::Recover { error, silent: false },
            ],
        }),
        whole_write(data, outcome).1 == Some(Ok::<(), SinkError>(())),
{
}

/// A write takes the outcome of writing first, whatever it is, and then that the device
/// recovered. It succeeds in both cases.
pub proof fn writes_take_their_answers<'d, E>(write: PcmWrite, reply: PcmReply<E>)
    ensures
        write.answered_by(reply) <==> match write {
            PcmWrite::Writing => reply is Written,
            PcmWrite::Recovering => reply is Recovered,
        },
        write == PcmWrite::Recovering && reply is Recovered ==> write.after::<E>(reply)
            == PcmProgress::<'d, E>::Done(Ok(())),
        reply matches PcmReply::Written(Ok(_)) ==> write.after::<E>(reply) == PcmProgress::<
            'd,
            E,
        >::Done(Ok(())),
        reply matches PcmReply::Written(Err(error)) ==> write.after::<E>(reply) == PcmProgress::<
            'd,
            E,
        >::Ask(PcmWrite::Recovering, PcmRequest::Recover { error, silent: false }),
{
}

/// A sink that plays on an ALSA device: the device `P` while it is open, and its name.
pub struct AlsaSink<P>(pub Option<P>, pub String);

impl<P> AlsaSink<P> {
    /// A sink for the device of a name, `default` where none is given. The device is not opened
    /// yet.
    pub fn open(device: Option<String>) -> (sink: AlsaSink<P>)
        ensures
            sink.0 is None,
            match device {
                Some(name) => sink.1 == name,
                None => sink.1@ == "default"@,
            },
    {
        let name = match device {
            Some(name) => name,
            None => "default".to_owned(),
        };
        AlsaSink(None, name)
    }

    /// Starts the sink: its device is to be set up, unless it is open.
    pub fn start(&self) -> (setup: Option<DeviceSetup<'_>>)
        ensures
            self.0 is Some ==> setup is None,
            self.0 is None ==> {
                &&& setup matches Some(setup)
                &&& setup.name@ == self.1@
                &&& setup.done == 0
                &&& setup.wf()
            },
    {
        match &self.0 {
            Some(_) => None,
            None => Some(open_device(self.1.as_str())),
        }
    }

    /// Takes the device that was set up, or learns that it could not be.
    pub fn started<E>(&mut self, device: Result<P, E>) -> (result: Result<(), SinkError>)
        ensures
            final(self).1 == old(self).1,
            match device {
                Ok(device) => final(self).0 == Some(device) && result is Ok,
                Err(_) => final(self).0 == old(self).0 && result == Err::<(), SinkError>(
                    SinkError::OpenFailed,
                ),
            },
    {
        match device {
            Ok(device) => {
                self.0 = Some(device);
                Ok(())
            },
            Err(_) => Err(SinkError::OpenFailed),
        }
    }

    /// Stops the sink, whose device is closed.
    pub fn stop(&mut self) -> (result: Result<(), SinkError>)
        ensures
            final(self).0 is None,
            final(self).1 == old(self).1,
            result is Ok,
    {
        self.0 = None;
        Ok(())
    }

    /// Begins to write samples: the open device, what the write is waiting for, and the call to
    /// make on the device, which hands it all the samples.
    pub fn write<'a, 'd, E>(&'a mut self, data: &'d [i16]) -> (begun: (
        &'a mut P,
        PcmWrite,
        PcmRequest<'d, E>,
    ))
        requires
            old(self).0 is Some,
        ensures
            Some(*begun.0) == old(self).0,
            final(self).0 == Some(*final(begun.0)),
            final(self).1 == old(self).1,
            begun.1 == PcmWrite::Writing,
            begun.2 == PcmRequest::<'d, E>::Write(data),
    {
        match &mut self.0 {
            Some(device) => (device, PcmWrite::Writing, PcmRequest::Write(data)),
            None => vstd::pervasive::unreached(),
        }
    }
}

} // verus!
