//! What is kept of a flight, and what is handed out to be written.
use vstd::prelude::*;
use vstd::string::*;
use vstd::utf8::encode_utf8;
use crate::data::SensorData;
use crate::num::Arithmetic;
use crate::source::{node_written, Source};

verus! {

/// The readings of a flight, one after the other.
pub struct GameTrace {
    states: Vec<SensorData>,
}

impl View for GameTrace {
    type V = Seq<SensorData>;

    closed spec fn view(&self) -> Seq<SensorData> {
        self.states@
    }
}

impl GameTrace {
    /// A trace without readings.
    pub fn new() -> (trace: GameTrace)
        ensures
            trace@ == Seq::<SensorData>::empty(),
    {
        GameTrace { states: Vec::with_capacity(200) }
    }

    /// Appends the readings of one more moment.
    pub fn add(&mut self, sensor_data: &SensorData)
        ensures
            final(self)@ == old(self)@.push(*sensor_data),
    {
        self.states.push(*sensor_data);
    }

    /// The readings, first to last.
    pub fn trace(&self) -> (states: &Vec<SensorData>)
        ensures
            states@ == self@,
    {
        &self.states
    }

    /// How many moments the trace holds.
    pub fn frames(&self) -> (n: usize)
        ensures
            n == self@.len(),
    {
        self.states.len()
    }
}

impl Clone for GameTrace {
    fn clone(&self) -> (copy: Self)
        ensures
            copy@ == self@,
    {
        let mut states: Vec<SensorData> = Vec::with_capacity(self.states.len());
        let mut i: usize = 0;
        while i < self.states.len()
            invariant
                i <= self.states.len(),
                states@ == self.states@.take(i as int),
            decreases self.states.len() - i,
        {
            states.push(self.states[i]);
            assert(self.states@.take(i + 1) =~= self.states@.take(i as int).push(
                self.states@[i as int],
            ));
            i = i + 1;
        }
        assert(self.states@.take(i as int) =~= self.states@);
        GameTrace { states }
    }
}

/// The bytes of the text of a tree, as they are written to a file.
pub fn save_source<P: Source, A: Arithmetic>(program: &P, arithmetic: &A) -> (bytes: Vec<u8>)
    ensures
        exists|text: Seq<char>| #[trigger]
            node_written(arithmetic, program.node(), text) && bytes@ == encode_utf8(text),
{
    let text = program.source(arithmetic);
    let bytes = text.as_str().as_bytes_vec();
    assert(node_written(arithmetic, program.node(), text@));
    bytes
}

} // verus!
