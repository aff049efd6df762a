//! The processor that runs once per audio buffer: it carries out pending
//! commands, lets the caller feed the analyzers, advances the timer and
//! publishes what changed.

use vstd::prelude::*;
use ebur128::EbuR128;
use tokio::sync::watch::Sender;
use crate::analyzer::{
    fits, global_bits, momentary_bits, new_analyzer, range_bits, reset_analyzer, short_term_bits,
    supported,
};
use crate::broadcast::write_snapshot;
use crate::config::Config;
use crate::loudness::{InputLoudness, InputsLoudness};
use crate::measure::{assemble, assembled, MeasureError};
use crate::registry::{
    analyzer_request, configured_channels, port_name, port_names, register, InputState,
    StartupError,
};
use crate::snapshot::{
    changes, changes_upto, differs, lemma_changes_by_record, lemma_changes_step, lemma_no_changes,
    merged,
};
use crate::table::{position, Table};
use crate::timer::{is_due, remaining_after, PublicationTimer};

verus! {

/// A control message for the processor.
#[derive(Debug)]
pub enum Command {
    /// Clear what the analyzer of the bus `input` has accumulated.
    Reset { input: String },
}

/// The bus that a command addresses, if the processor has a bus of that
/// name.
pub open spec fn target_of(names: Seq<Seq<char>>, command: Command) -> Option<int> {
    match command {
        Command::Reset { input } => position(names, input@),
    }
}

/// The buses that a sequence of commands resets, in the order of the
/// commands. A command for an unknown name resets nothing.
pub open spec fn reset_targets(names: Seq<Seq<char>>, commands: Seq<Command>) -> Seq<usize>
    decreases commands.len(),
{
    if commands.len() == 0 {
        Seq::empty()
    } else {
        let before = reset_targets(names, commands.drop_last());
        match target_of(names, commands.last()) {
            Some(index) => before.push(index as usize),
            None => before,
        }
    }
}

/// The processor that runs once per audio buffer. It owns the buses and the
/// publication timer.
pub struct Processor {
    inputs: Table<InputState>,
    timer: PublicationTimer,
}

impl Processor {
    /// The names of the buses, in registration order.
    pub closed spec fn names(&self) -> Seq<Seq<char>> {
        self.inputs.names()
    }

    /// The channel count of each bus.
    pub closed spec fn channels(&self) -> Seq<usize> {
        Seq::new(self.inputs.values().len(), |i: int| self.inputs.values()[i].channels)
    }

    /// The tuple last published for each bus.
    pub closed spec fn published(&self) -> Seq<InputLoudness> {
        Seq::new(self.inputs.values().len(), |i: int| self.inputs.values()[i].last_values)
    }

    /// The analyzer of each bus.
    pub closed spec fn analyzers(&self) -> Seq<EbuR128> {
        Seq::new(self.inputs.values().len(), |i: int| self.inputs.values()[i].ebur128)
    }

    /// The publication timer.
    pub closed spec fn timer(&self) -> PublicationTimer {
        self.timer
    }

    /// No bus name occurs twice, every bus has its channel count, its
    /// analyzer and its tuple, and the timer is within its interval.
    pub open spec fn wf(&self) -> bool {
        &&& self.names().no_duplicates()
        &&& self.channels().len() == self.names().len()
        &&& self.analyzers().len() == self.names().len()
        &&& self.published().len() == self.names().len()
        &&& self.timer().wf()
    }

    /// Registers one bus per configured input, each with the analyzer that
    /// [`analyzer_request`] asks for, for its channel count at `sample_rate`,
    /// and with the tuple of an input without signal, and starts the timer
    /// one interval before the first publication.
    ///
    /// Succeeds if every bus has a [`supported`] channel count and rate whose
    /// buffer sizes can be counted on this machine ([`fits`]). Fails at the
    /// first bus whose analyzer refuses to be made, as it always does for an
    /// unsupported channel count or rate.
    pub fn new(config: &Config, sample_rate: usize) -> (made: Result<Processor, StartupError>)
        requires
            config.inputs.wf(),
            sample_rate > 0,
        ensures
            match made {
                Ok(processor) => {
                    &&& processor.wf()
                    &&& processor.names() == config.inputs.names()
                    &&& processor.channels() == configured_channels(config.inputs.values())
                    &&& forall|i: int|
                        0 <= i < processor.published().len() ==> #[trigger] processor.published()[i]
                            == InputLoudness::spec_silent()
                    &&& forall|i: int|
                        0 <= i < processor.channels().len() ==> supported(
                            #[trigger] processor.channels()[i] as int,
                            sample_rate as int,
                        )
                    &&& processor.timer().interval() == sample_rate
                    &&& processor.timer().remaining() == sample_rate
                },
                Err(error) => {
                    &&& error.input < config.inputs.names().len()
                    &&& forall|i: int|
                        0 <= i < error.input ==> supported(
                            (#[trigger] config.inputs.values()[i]).channels as int,
                            sample_rate as int,
                        )
                    &&& !(supported(
                        config.inputs.values()[error.input as int].channels as int,
                        sample_rate as int,
                    ) && fits(
                        config.inputs.values()[error.input as int].channels as int,
                        sample_rate as int,
                    ))
                },
            },
            config.inputs.names().len() == 0 ==> made.is_ok(),
            (forall|i: int|
                0 <= i < config.inputs.values().len() ==> supported(
                    (#[trigger] config.inputs.values()[i]).channels as int,
                    sample_rate as int,
                ) && fits(config.inputs.values()[i].channels as int, sample_rate as int))
                ==> made.is_ok(),
            (exists|i: int|
                0 <= i < config.inputs.values().len() && !supported(
                    (#[trigger] config.inputs.values()[i]).channels as int,
                    sample_rate as int,
                )) ==> made.is_err(),
    {
        let mut inputs: Table<InputState> = Table::new();
        let count: usize = config.inputs.len();
        let mut index: usize = 0;
        while index < count
            invariant
                config.inputs.wf(),
                count == config.inputs.names().len(),
                index <= count,
                inputs.wf(),
                inputs.names() == config.inputs.names().take(index as int),
                inputs.values().len() == index,
                forall|i: int|
                    0 <= i < index ==> {
                        &&& (#[trigger] inputs.values()[i]).channels
                            == config.inputs.values()[i].channels
                        &&& inputs.values()[i].last_values == InputLoudness::spec_silent()
                        &&& supported(inputs.values()[i].channels as int, sample_rate as int)
                    },
            decreases count - index,
        {
            let channels: usize = config.inputs.value(index).channels;
            let request = analyzer_request(channels, sample_rate);
            let made = new_analyzer(request.channels, request.rate, request.modes);
            match register(index, channels, made) {
                Ok(state) => {
                    let name: String = config.inputs.name(index).clone();
                    proof {
                        let names = config.inputs.names();
                        let taken = names.take(index as int);
                        if taken.contains(names[index as int]) {
                            let j = taken.index_of(names[index as int]);
                            assert(taken[j] == names[j]);
                            assert(false);
                        }
                        assert(taken.push(names[index as int]) =~= names.take(index as int + 1));
                    }
                    inputs.insert(name, state);
                },
                Err(error) => {
                    proof {
                        assert(channels == config.inputs.values()[index as int].channels);
                        assert(made.is_err());
                        assert forall|i: int| 0 <= i < index implies supported(
                            (#[trigger] config.inputs.values()[i]).channels as int,
                            sample_rate as int,
                        ) by {
                            assert(inputs.values()[i].channels
                                == config.inputs.values()[i].channels);
                        }
                    }
                    return Err(error);
                },
            }
            index += 1;
        }
        let processor = Processor { inputs, timer: PublicationTimer::new(sample_rate) };
        proof {
            assert(config.inputs.names().take(count as int) =~= config.inputs.names());
            assert(processor.channels() =~= configured_channels(config.inputs.values()));
            assert forall|i: int| 0 <= i < config.inputs.values().len() implies supported(
                (#[trigger] config.inputs.values()[i]).channels as int,
                sample_rate as int,
            ) by {
                assert(processor.inputs.values()[i].channels
                    == config.inputs.values()[i].channels);
            }
        }
        Ok(processor)
    }

    /// The number of buses.
    pub fn len(&self) -> (count: usize)
        ensures
            count == self.names().len(),
    {
        self.inputs.len()
    }

    /// The name of the bus at `index`.
    pub fn name(&self, index: usize) -> (name: &String)
        requires
            index < self.names().len(),
        ensures
            name@ == self.names()[index as int],
    {
        self.inputs.name(index)
    }

    /// The index of the bus called `name`, if there is one.
    pub fn find(&self, name: &String) -> (found: Option<usize>)
        requires
            self.wf(),
        ensures
            match position(self.names(), name@) {
                Some(index) => found == Some(index as usize) && 0 <= index < self.names().len(),
                None => found.is_none(),
            },
    {
        self.inputs.find(name)
    }

    /// The channel count of the bus at `index`.
    pub fn channel_count(&self, index: usize) -> (count: usize)
        requires
            self.wf(),
            index < self.names().len(),
        ensures
            count == self.channels()[index as int],
    {
        self.inputs.value(index).channels
    }

    /// The tuple last published for the bus at `index`.
    pub fn last_values(&self, index: usize) -> (tuple: InputLoudness)
        requires
            self.wf(),
            index < self.names().len(),
        ensures
            tuple == self.published()[index as int],
    {
        self.inputs.value(index).last_values
    }

    /// The publication timer.
    pub fn countdown(&self) -> (timer: &PublicationTimer)
        ensures
            *timer == self.timer(),
    {
        &self.timer
    }

    /// The names of the capture ports of the bus at `index`: as many as the
    /// bus has channels.
    pub fn port_names(&self, index: usize) -> (names: Vec<String>)
        requires
            self.wf(),
            index < self.names().len(),
        ensures
            names@.len() == self.channels()[index as int],
            forall|i: int|
                0 <= i < names@.len() ==> (#[trigger] names@[i])@ == port_name(
                    self.names()[index as int],
                    i as nat,
                ),
    {
        port_names(self.inputs.name(index), self.inputs.value(index).channels)
    }

    /// The analyzer of the bus at `index`, to be fed the frames of a buffer.
    /// It is that bus's own analyzer, and what is done to it is done to the
    /// bus: afterwards the bus holds the analyzer as the caller left it, and
    /// every other bus holds its analyzer as before. Whatever is done, the
    /// bus keeps its name, its channel count and its tuple on record.
    pub fn analyzer_mut(&mut self, index: usize) -> (analyzer: &mut EbuR128)
        requires
            old(self).wf(),
            index < old(self).names().len(),
        ensures
            *analyzer == old(self).analyzers()[index as int],
            final(self).analyzers() == old(self).analyzers().update(
                index as int,
                *final(analyzer),
            ),
            final(self).wf(),
            final(self).names() == old(self).names(),
            final(self).channels() == old(self).channels(),
            final(self).published() == old(self).published(),
            final(self).timer() == old(self).timer(),
    {
        let state = self.inputs.value_mut(index);
        &mut state.ebur128
    }

    /// Carries out one command. A reset clears the analyzer of the bus it
    /// names and returns the index of that bus; a reset of a name that no bus
    /// has is ignored. Nothing else changes: every analyzer but the one of the
    /// bus that is reset stays as it is.
    pub fn apply(&mut self, command: &Command) -> (target: Option<usize>)
        requires
            old(self).wf(),
        ensures
            final(self).wf(),
            final(self).names() == old(self).names(),
            final(self).channels() == old(self).channels(),
            final(self).published() == old(self).published(),
            final(self).timer() == old(self).timer(),
            forall|i: int|
                0 <= i < old(self).analyzers().len() && target != Some(i as usize) ==> (
                #[trigger] final(self).analyzers()[i]) == old(self).analyzers()[i],
            target.is_none() ==> final(self).analyzers() == old(self).analyzers(),
            match target_of(old(self).names(), *command) {
                Some(index) => target == Some(index as usize) && 0 <= index < old(
                    self,
                ).names().len(),
                None => target.is_none(),
            },
    {
        match command {
            Command::Reset { input } => {
                match self.inputs.find(input) {
                    Some(index) => {
                        reset_analyzer(self.analyzer_mut(index));
                        Some(index)
                    },
                    None => None,
                }
            },
        }
    }

    /// Carries out the pending commands in their order and returns the buses
    /// that were reset, one entry per reset. The analyzer of a bus that was
    /// not reset stays as it is.
    pub fn apply_all(&mut self, commands: &Vec<Command>) -> (targets: Vec<usize>)
        requires
            old(self).wf(),
        ensures
            final(self).wf(),
            final(self).names() == old(self).names(),
            final(self).channels() == old(self).channels(),
            final(self).published() == old(self).published(),
            final(self).timer() == old(self).timer(),
            targets@ == reset_targets(old(self).names(), commands@),
            forall|i: int|
                0 <= i < old(self).analyzers().len() && !targets@.contains(i as usize) ==> (
                #[trigger] final(self).analyzers()[i]) == old(self).analyzers()[i],
            targets@.len() == 0 ==> final(self).analyzers() == old(self).analyzers(),
    {
        let mut targets: Vec<usize> = Vec::new();
        let mut next: usize = 0;
        while next < commands.len()
            invariant
                next <= commands@.len(),
                self.wf(),
                self.names() == old(self).names(),
                self.channels() == old(self).channels(),
                self.published() == old(self).published(),
                self.timer() == old(self).timer(),
                targets@ == reset_targets(self.names(), commands@.take(next as int)),
                self.analyzers().len() == old(self).analyzers().len(),
                forall|i: int|
                    0 <= i < old(self).analyzers().len() && !targets@.contains(i as usize) ==> (
                    #[trigger] self.analyzers()[i]) == old(self).analyzers()[i],
            decreases commands@.len() - next,
        {
            proof {
                let upto = commands@.take(next as int + 1);
                assert(upto.drop_last() =~= commands@.take(next as int));
                assert(upto.last() == commands@[next as int]);
            }
            let ghost reset_before = targets@;
            match self.apply(&commands[next]) {
                Some(index) => {
                    targets.push(index);
                    proof {
                        assert(targets@.last() == index);
                        assert forall|t: usize| reset_before.contains(t) implies targets@.contains(
                            t,
                        ) by {
                            let k = reset_before.index_of(t);
                            assert(targets@[k] == t);
                        }
                    }
                },
                None => {},
            }
            next += 1;
        }
        proof {
            assert(commands@.take(next as int) =~= commands@);
            if targets@.len() == 0 {
                assert(self.analyzers() =~= old(self).analyzers());
            }
        }
        targets
    }

    /// Asks the analyzer of the bus at `index` for its four metrics. Fails
    /// where the analyzer refuses a query; the error names the bus.
    pub fn measure(&self, index: usize) -> (measured: Result<InputLoudness, MeasureError>)
        requires
            self.wf(),
            index < self.names().len(),
        ensures
            measured matches Err(error) ==> error.input == index,
            exists|
                momentary: Result<u64, ebur128::Error>,
                short_term: Result<u64, ebur128::Error>,
                global: Result<u64, ebur128::Error>,
                range: Result<u64, ebur128::Error>,
            |
                measured == #[trigger] assembled(index, momentary, short_term, global, range),
    {
        let analyzer = &self.inputs.value(index).ebur128;
        let momentary = momentary_bits(analyzer);
        let short_term = short_term_bits(analyzer);
        let global = global_bits(analyzer);
        let range = range_bits(analyzer);
        assemble(index, momentary, short_term, global, range)
    }

    /// Measures every bus, in registration order. Fails at the first bus whose
    /// analyzer refuses a query.
    pub fn measure_all(&self) -> (measured: Result<Vec<InputLoudness>, MeasureError>)
        requires
            self.wf(),
        ensures
            match measured {
                Ok(tuples) => tuples@.len() == self.names().len(),
                Err(error) => error.input < self.names().len(),
            },
            self.names().len() == 0 ==> measured.is_ok(),
    {
        let mut tuples: Vec<InputLoudness> = Vec::new();
        let mut index: usize = 0;
        while index < self.inputs.len()
            invariant
                self.wf(),
                index <= self.names().len(),
                tuples@.len() == index,
            decreases self.names().len() - index,
        {
            match self.measure(index) {
                Ok(tuple) => {
                    tuples.push(tuple);
                },
                Err(error) => {
                    return Err(error);
                },
            }
            index += 1;
        }
        Ok(tuples)
    }

    /// Takes the measured tuples of all buses, puts each one that differs
    /// from the tuple on record in its place, and returns the snapshot of
    /// those that differed.
    pub fn publish(&mut self, measured: &Vec<InputLoudness>) -> (snapshot: InputsLoudness)
        requires
            old(self).wf(),
            measured@.len() == old(self).names().len(),
        ensures
            final(self).wf(),
            final(self).names() == old(self).names(),
            final(self).channels() == old(self).channels(),
            final(self).timer() == old(self).timer(),
            final(self).published() == merged(old(self).published(), measured@),
            final(self).analyzers() == old(self).analyzers(),
            snapshot.inputs.wf(),
            snapshot.inputs@ == changes(old(self).names(), old(self).published(), measured@),
    {
        let mut snapshot = InputsLoudness { inputs: Table::new() };
        let count: usize = self.inputs.len();
        let mut index: usize = 0;
        assert(snapshot.inputs@ =~= changes_upto(
            self.names(),
            self.published(),
            measured@,
            0,
        ));
        while index < count
            invariant
                index <= count,
                count == old(self).names().len(),
                measured@.len() == count,
                old(self).wf(),
                self.wf(),
                self.names() == old(self).names(),
                self.channels() == old(self).channels(),
                self.timer() == old(self).timer(),
                self.analyzers() == old(self).analyzers(),
                self.published().len() == count,
                forall|i: int|
                    0 <= i < index ==> #[trigger] self.published()[i] == merged(
                        old(self).published(),
                        measured@,
                    )[i],
                forall|i: int|
                    index <= i < count ==> #[trigger] self.published()[i] == old(
                        self,
                    ).published()[i],
                snapshot.inputs.wf(),
                snapshot.inputs@ == changes_upto(
                    old(self).names(),
                    old(self).published(),
                    measured@,
                    index as int,
                ),
            decreases count - index,
        {
            let current: InputLoudness = measured[index];
            let recorded: InputLoudness = self.inputs.value(index).last_values;
            proof {
                lemma_changes_step(
                    old(self).names(),
                    old(self).published(),
                    measured@,
                    index as int,
                );
                assert(recorded == self.published()[index as int]);
                assert(recorded == old(self).published()[index as int]);
            }
            if !(current == recorded) {
                let ghost before = *self;
                let state = self.inputs.value_mut(index);
                state.last_values = current;
                proof {
                    assert(self.channels() =~= before.channels());
                    assert(self.analyzers() =~= before.analyzers());
                    assert(self.published() =~= before.published().update(index as int, current));
                }
                let name: String = self.inputs.name(index).clone();
                snapshot.inputs.insert(name, current);
            }
            index += 1;
        }
        proof {
            assert(self.published() =~= merged(old(self).published(), measured@));
        }
        snapshot
    }

    /// The second half of a buffer's processing, after the frames were fed to
    /// the analyzers: takes the buffer's duration off the timer and, if a
    /// publication is due, measures every bus and returns the snapshot of
    /// those whose tuple changed. No snapshot is returned where none
    /// changed. The analyzers are only asked and stay as they are.
    ///
    /// Fails where an analyzer refuses a query; the tuples on record are then
    /// as they were.
    pub fn tick(&mut self, frames: u32) -> (outcome: Result<Option<InputsLoudness>, MeasureError>)
        requires
            old(self).wf(),
        ensures
            final(self).wf(),
            final(self).names() == old(self).names(),
            final(self).channels() == old(self).channels(),
            final(self).analyzers() == old(self).analyzers(),
            final(self).timer().interval() == old(self).timer().interval(),
            final(self).timer().remaining() == remaining_after(
                old(self).timer().remaining(),
                old(self).timer().interval(),
                frames,
            ),
            final(self).published().len() == old(self).published().len(),
            forall|i: int|
                0 <= i < old(self).published().len() ==> {
                    ||| #[trigger] final(self).published()[i] == old(self).published()[i]
                    ||| differs(old(self).published()[i], final(self).published()[i])
                },
            match outcome {
                Ok(Some(snapshot)) => {
                    &&& is_due(old(self).timer().remaining(), frames)
                    &&& snapshot.inputs.wf()
                    &&& snapshot.inputs.names().len() > 0
                    &&& snapshot.inputs@ == changes(
                        old(self).names(),
                        old(self).published(),
                        final(self).published(),
                    )
                },
                Ok(None) => final(self).published() == old(self).published(),
                Err(error) => {
                    &&& is_due(old(self).timer().remaining(), frames)
                    &&& error.input < old(self).names().len()
                    &&& final(self).published() == old(self).published()
                },
            },
            !is_due(old(self).timer().remaining(), frames) ==> outcome matches Ok(None),
            old(self).names().len() == 0 ==> outcome matches Ok(None),
    {
        let due: bool = self.timer.advance(frames);
        if !due {
            return Ok(None);
        }
        let measured: Vec<InputLoudness> = match self.measure_all() {
            Ok(tuples) => tuples,
            Err(error) => {
                return Err(error);
            },
        };
        let snapshot: InputsLoudness = self.publish(&measured);
        proof {
            lemma_changes_by_record(old(self).names(), old(self).published(), measured@);
        }
        proof {
            if snapshot.inputs.names().len() > 0 {
                let first = snapshot.inputs.names()[0];
                assert(snapshot.inputs.names().contains(first));
                assert(snapshot.inputs@.contains_key(first));
            }
        }
        if snapshot.inputs.is_empty() {
            proof {
                lemma_no_changes(old(self).names(), old(self).published(), measured@);
                assert(self.published() =~= old(self).published());
            }
            Ok(None)
        } else {
            Ok(Some(snapshot))
        }
    }

    /// The second half of a buffer's processing, with the publication: as
    /// [`Processor::tick`], and a snapshot that it returns is handed to the
    /// state broadcast. Returns whether one was handed over; a broadcast
    /// without readers drops it.
    pub fn process(&mut self, sender: &Sender<InputsLoudness>, frames: u32) -> (outcome: Result<
        bool,
        MeasureError,
    >)
        requires
            old(self).wf(),
        ensures
            final(self).wf(),
            final(self).names() == old(self).names(),
            final(self).channels() == old(self).channels(),
            final(self).analyzers() == old(self).analyzers(),
            final(self).timer().interval() == old(self).timer().interval(),
            final(self).timer().remaining() == remaining_after(
                old(self).timer().remaining(),
                old(self).timer().interval(),
                frames,
            ),
            final(self).published().len() == old(self).published().len(),
            forall|i: int|
                0 <= i < old(self).published().len() ==> {
                    ||| #[trigger] final(self).published()[i] == old(self).published()[i]
                    ||| differs(old(self).published()[i], final(self).published()[i])
                },
            match outcome {
                Ok(true) => {
                    &&& is_due(old(self).timer().remaining(), frames)
                    &&& exists|i: int|
                        0 <= i < old(self).published().len() && differs(
                            old(self).published()[i],
                            #[trigger] final(self).published()[i],
                        )
                },
                Ok(false) => final(self).published() == old(self).published(),
                Err(error) => {
                    &&& is_due(old(self).timer().remaining(), frames)
                    &&& error.input < old(self).names().len()
                    &&& final(self).published() == old(self).published()
                },
            },
            !is_due(old(self).timer().remaining(), frames) ==> outcome matches Ok(false),
            old(self).names().len() == 0 ==> outcome matches Ok(false),
    {
        match self.tick(frames) {
            Ok(Some(snapshot)) => {
                proof {
                    let first = snapshot.inputs.names()[0];
                    assert(snapshot.inputs.names().contains(first));
                    assert(snapshot.inputs@.contains_key(first));
                    let i = choose|i: int|
                        0 <= i < old(self).names().len() && i < old(self).names().len()
                            && #[trigger] old(self).names()[i] == first && differs(
                            old(self).published()[i],
                            self.published()[i],
                        );
                    assert(differs(old(self).published()[i], self.published()[i]));
                }
                write_snapshot(sender, snapshot);
                Ok(true)
            },
            Ok(None) => Ok(false),
            Err(error) => Err(error),
        }
    }
}

} // verus!
