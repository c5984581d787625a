//! Playback of raw speech: decoding 16-bit samples that arrive in pieces, and
//! the commands that the player thread obeys.
use std::collections::VecDeque;
use vstd::prelude::*;

verus! {

/// The sample of two bytes, the low one first, in two's complement.
pub open spec fn sample(low: u8, high: u8) -> i16 {
    let n = low as int + 256 * (high as int);
    if n < 0x8000 {
        n as i16
    } else {
        (n - 0x1_0000) as i16
    }
}

/// The samples of the complete pairs of bytes.
pub open spec fn samples(bytes: Seq<u8>) -> Seq<i16> {
    Seq::new((bytes.len() / 2) as nat, |i: int| sample(bytes[2 * i], bytes[2 * i + 1]))
}

/// The byte after the last complete pair, where there is one.
pub open spec fn odd_byte(bytes: Seq<u8>) -> Seq<u8> {
    if bytes.len() % 2 == 1 {
        seq![bytes.last()]
    } else {
        Seq::empty()
    }
}

/// The sample of two bytes.
fn to_sample(low: u8, high: u8) -> (r: i16)
    ensures
        r == sample(low, high),
{
    let n: i32 = low as i32 + 256 * (high as i32);
    if n < 0x8000 {
        n as i16
    } else {
        (n - 0x1_0000) as i16
    }
}

/// Decodes samples from bytes that arrive in pieces of any length.
#[derive(Debug)]
pub struct PcmDecoder {
    leftover: Option<u8>,
}

impl PcmDecoder {
    /// The bytes that wait for their other half: none or one.
    pub closed spec fn view(&self) -> Seq<u8> {
        match self.leftover {
            Some(b) => seq![b],
            None => Seq::empty(),
        }
    }

    pub fn new() -> (r: PcmDecoder)
        ensures
            r@ == Seq::<u8>::empty(),
    {
        PcmDecoder { leftover: None }
    }

    /// The samples that are complete with these bytes. A byte without its
    /// other half waits for the next call.
    pub fn decode(&mut self, bytes: &[u8]) -> (r: Vec<i16>)
        ensures
            r@ == samples(old(self)@ + bytes@),
            final(self)@ == odd_byte(old(self)@ + bytes@),
    {
        let ghost all = self@ + bytes@;
        let lead: usize = if self.leftover.is_some() {
            1
        } else {
            0
        };
        let mut out: Vec<i16> = Vec::new();
        let mut i: usize = 0;
        if let Some(low) = self.leftover {
            if bytes.len() == 0 {
                proof {
                    assert(samples(all) =~= out@);
                    assert(odd_byte(all) =~= self@);
                }
                return out;
            }
            out.push(to_sample(low, bytes[0]));
            i = 1;
            self.leftover = None;
            proof {
                assert(all[0] == low && all[1] == bytes@[0]);
            }
        }
        while bytes.len() - i >= 2
            invariant
                i <= bytes@.len(),
                lead <= 1,
                all.len() == lead + bytes@.len(),
                forall|j: int| 0 <= j < bytes@.len() ==> #[trigger] all[lead + j] == bytes@[j],
                i + lead == 2 * out@.len(),
                out@ == samples(all).take(out@.len() as int),
                self.leftover is None,
            decreases bytes@.len() - i,
        {
            let ghost k = out@.len() as int;
            proof {
                assert(all[lead + i] == bytes@[i as int]);
                assert(all[lead + (i + 1)] == bytes@[i as int + 1]);
                assert(samples(all).take(k + 1) =~= samples(all).take(k).push(samples(all)[k]));
            }
            out.push(to_sample(bytes[i], bytes[i + 1]));
            i += 2;
        }
        proof {
            assert(samples(all).take(out@.len() as int) =~= samples(all));
        }
        if i < bytes.len() {
            self.leftover = Some(bytes[i]);
            proof {
                assert(all[lead + i] == bytes@[i as int]);
                assert(odd_byte(all) =~= self@);
            }
        } else {
            proof {
                assert(odd_byte(all) =~= self@);
            }
        }
        out
    }
}

/// However the bytes are cut into pieces, the same samples come out: decoding
/// two pieces one after the other gives what decoding them at once gives, and
/// leaves the same byte waiting.
pub proof fn decoding_does_not_depend_on_the_pieces(
    waiting: Seq<u8>,
    first: Seq<u8>,
    second: Seq<u8>,
)
    ensures
        samples(waiting + first) + samples(odd_byte(waiting + first) + second) == samples(
            waiting + (first + second),
        ),
        odd_byte(odd_byte(waiting + first) + second) == odd_byte(waiting + (first + second)),
{
    let a = waiting + first;
    let b = odd_byte(a) + second;
    let all = waiting + (first + second);
    let pairs = (a.len() / 2) as int;
    assert(all =~= a + second);
    assert(all.skip(2 * pairs) =~= b);
    assert forall|i: int| 0 <= i < b.len() implies b[i] == all[2 * pairs + i] by {
        assert(all.skip(2 * pairs)[i] == all[2 * pairs + i]);
    }
    let left = samples(a) + samples(b);
    assert(left.len() == samples(all).len());
    assert forall|i: int| 0 <= i < left.len() implies left[i] == samples(all)[i] by {
        if i >= pairs {
            let k = i - pairs;
            assert(left[i] == samples(b)[k]);
            assert(b[2 * k] == all[2 * pairs + 2 * k]);
            assert(b[2 * k + 1] == all[2 * pairs + 2 * k + 1]);
        }
    }
    assert(left =~= samples(all));
    if b.len() % 2 == 1 {
        assert(b.last() == all.last());
    }
}

/// Appends decoded speech to a sink.
#[derive(Debug)]
pub struct Player {
    decoder: PcmDecoder,
}

impl Player {
    /// The bytes that wait for their other half.
    pub closed spec fn view(&self) -> Seq<u8> {
        self.decoder@
    }

    pub fn new() -> (r: Player)
        ensures
            r@ == Seq::<u8>::empty(),
    {
        Player { decoder: PcmDecoder::new() }
    }

    /// The samples to hand to the sink for these bytes, if any are complete.
    pub fn append(&mut self, bytes: &[u8]) -> (r: Option<Vec<i16>>)
        ensures
            final(self)@ == odd_byte(old(self)@ + bytes@),
            match r {
                Some(out) => out@ == samples(old(self)@ + bytes@) && out@.len() > 0,
                None => samples(old(self)@ + bytes@).len() == 0,
            },
    {
        let out: Vec<i16> = self.decoder.decode(bytes);
        if out.len() == 0 {
            None
        } else {
            Some(out)
        }
    }
}

/// What the player thread is asked to do.
#[derive(Debug)]
pub enum PlayerCommand {
    Chunk(Vec<u8>),
    Stop,
    Reopen,
}

/// What the player thread learns.
#[derive(Debug)]
pub enum PlayerInput {
    Command(PlayerCommand),
    /// The output device was opened again, or could not be.
    Reopened(bool),
    /// No command came for a while.
    Idle,
    /// No command can come any more.
    Disconnected,
}

/// What the player thread is to do.
#[derive(Debug)]
pub enum PlayerAction {
    AppendSamples(Vec<i16>),
    StopSink,
    OpenDevice,
    Nothing,
    /// Leave: the playback is over.
    Exit,
}

/// What the player does with an input: the bytes that wait after it, and
/// whether the action is the right one.
pub open spec fn player_step(
    waiting: Seq<u8>,
    input: PlayerInput,
    after: Seq<u8>,
    action: PlayerAction,
) -> bool {
    match input {
        PlayerInput::Command(PlayerCommand::Chunk(bytes)) => {
            let out = samples(waiting + bytes@);
            &&& after == odd_byte(waiting + bytes@)
            &&& if out.len() == 0 {
                action is Nothing
            } else {
                action matches PlayerAction::AppendSamples(v) && v@ == out
            }
        },
        PlayerInput::Command(PlayerCommand::Stop) => after == waiting && action is StopSink,
        PlayerInput::Command(PlayerCommand::Reopen) => after == waiting && action is OpenDevice,
        PlayerInput::Reopened(true) => after.len() == 0 && action is Nothing,
        PlayerInput::Reopened(false) => after == waiting && action is Nothing,
        PlayerInput::Idle => after == waiting && action is Nothing,
        PlayerInput::Disconnected => after == waiting && action is Exit,
    }
}

impl Player {
    /// One round of the player thread. A device that was opened again starts
    /// afresh; one that could not be leaves the previous one in use.
    pub fn step(&mut self, input: PlayerInput) -> (r: PlayerAction)
        ensures
            player_step(old(self)@, input, final(self)@, r),
    {
        match input {
            PlayerInput::Command(PlayerCommand::Chunk(bytes)) => match self.append(
                bytes.as_slice(),
            ) {
                Some(out) => PlayerAction::AppendSamples(out),
                None => PlayerAction::Nothing,
            },
            PlayerInput::Command(PlayerCommand::Stop) => PlayerAction::StopSink,
            PlayerInput::Command(PlayerCommand::Reopen) => PlayerAction::OpenDevice,
            PlayerInput::Reopened(opened) => {
                if opened {
                    self.decoder = PcmDecoder::new();
                }
                PlayerAction::Nothing
            },
            PlayerInput::Idle => PlayerAction::Nothing,
            PlayerInput::Disconnected => PlayerAction::Exit,
        }
    }
}

/// The sender's side of the player: the commands not yet taken, oldest first.
#[derive(Debug)]
pub struct PlaybackHandle {
    queue: VecDeque<PlayerCommand>,
}

impl PlaybackHandle {
    /// The commands not yet taken, oldest first.
    pub closed spec fn view(&self) -> Seq<PlayerCommand> {
        self.queue@
    }

    pub fn new() -> (r: PlaybackHandle)
        ensures
            r@ == Seq::<PlayerCommand>::empty(),
    {
        PlaybackHandle { queue: VecDeque::new() }
    }

    /// Asks for these bytes to be played after everything asked for before.
    pub fn enqueue(&mut self, bytes: Vec<u8>)
        ensures
            final(self)@ == old(self)@.push(PlayerCommand::Chunk(bytes)),
    {
        self.queue.push_back(PlayerCommand::Chunk(bytes));
    }

    /// Asks for the playback to stop.
    pub fn stop(&mut self)
        ensures
            final(self)@ == old(self)@.push(PlayerCommand::Stop),
    {
        self.queue.push_back(PlayerCommand::Stop);
    }

    /// Asks for the output device to be opened again.
    pub fn reopen(&mut self)
        ensures
            final(self)@ == old(self)@.push(PlayerCommand::Reopen),
    {
        self.queue.push_back(PlayerCommand::Reopen);
    }

    /// Takes the oldest command.
    pub fn take(&mut self) -> (r: Option<PlayerCommand>)
        ensures
            match r {
                Some(c) => {
                    &&& old(self)@.len() > 0
                    &&& c == old(self)@[0]
                    &&& final(self)@ == old(self)@.drop_first()
                },
                None => old(self)@.len() == 0 && final(self)@ == old(self)@,
            },
    {
        let r = self.queue.pop_front();
        proof {
            if old(self)@.len() > 0 {
                assert(self@ =~= old(self)@.drop_first());
            }
        }
        r
    }
}

/// A sample is the number in its two bytes, the low one first, as a signed one.
pub proof fn a_sample_is_the_number_in_its_bytes(low: u8, high: u8, bytes: Seq<u8>, i: int)
    ensures
        high < 0x80 ==> sample(low, high) == low + 0x100 * high,
        high >= 0x80 ==> sample(low, high) == low + 0x100 * high - 0x1_0000,
        2 * samples(bytes).len() + odd_byte(bytes).len() == bytes.len(),
        0 <= 2 * i < bytes.len() - 1 ==> samples(bytes)[i] == sample(bytes[2 * i], bytes[2 * i + 1]),
        bytes.len() % 2 == 1 ==> odd_byte(bytes) == seq![bytes.last()],
{
}

/// A piece of audio is played as soon as it makes up a sample, stopping stops the
/// sound, and only a device that was opened anew forgets the byte that waits.
pub proof fn the_player_does_as_it_is_told(
    waiting: Seq<u8>,
    input: PlayerInput,
    after: Seq<u8>,
    action: PlayerAction,
)
    requires
        player_step(waiting, input, after, action),
    ensures
        input matches PlayerInput::Command(PlayerCommand::Chunk(bytes)) ==> (waiting.len()
            + bytes@.len() >= 2 <==> action is AppendSamples),
        match (input, action) {
            (
                PlayerInput::Command(PlayerCommand::Chunk(bytes)),
                PlayerAction::AppendSamples(v),
            ) => v@ == samples(waiting + bytes@),
            (_, PlayerAction::AppendSamples(_)) => false,
            _ => true,
        },
        input == PlayerInput::Command(PlayerCommand::Stop) <==> action is StopSink,
        input == PlayerInput::Command(PlayerCommand::Reopen) <==> action is OpenDevice,
        input is Disconnected <==> action is Exit,
        input == PlayerInput::Reopened(true) ==> after.len() == 0,
        !(input is Command) && input != PlayerInput::Reopened(true) ==> after == waiting,
{
}

} // verus!
