//! Observer pattern, pushing: a weather station keeps a list of observers and,
//! when asked to, hands each of them the measurements it holds.
//!
//! Measurements are whole numbers of tenths: of a degree, of a percent, of an
//! inch of mercury.

use crate::text::{tenths, tenths_string};
use vstd::prelude::*;
use vstd::std_specs::cmp::PartialEqSpec;

verus! {

/// What a station measures, in tenths.
#[derive(Clone, Copy, Debug, PartialEq, Eq, Structural)]
pub struct Measurements {
    pub temperature: i32,
    pub humidity: i32,
    pub pressure: i32,
}

/// Who wants to be told of new measurements.
pub trait Observer: Sized {
    /// The observer after it was told of measurements.
    spec fn updated(&self, temprature: i32, humidity: i32, pressure: i32) -> Self;

    /// What the observer says when it is told of measurements.
    spec fn update_text(&self, temprature: i32, humidity: i32, pressure: i32) -> Seq<char>;

    fn update(&mut self, temprature: i32, humidity: i32, pressure: i32) -> (said: String)
        ensures
            *final(self) == old(self).updated(temprature, humidity, pressure),
            said@ == old(self).update_text(temprature, humidity, pressure),
    ;
}

/// The observers of a list after each was told of the measurements.
pub open spec fn notified<T: Observer>(observers: Seq<T>, measured: Measurements) -> Seq<T> {
    Seq::new(
        observers.len(),
        |i: int| observers[i].updated(measured.temperature, measured.humidity, measured.pressure),
    )
}

/// What the observers of a list say when each is told of the measurements,
/// first to last.
pub open spec fn notify_text<T: Observer>(observers: Seq<T>, measured: Measurements) -> Seq<char>
    decreases observers.len(),
{
    if observers.len() == 0 {
        Seq::empty()
    } else {
        notify_text(observers.drop_last(), measured) + observers.last().update_text(
            measured.temperature,
            measured.humidity,
            measured.pressure,
        )
    }
}

/// Whether `o` is the first of `observers` that equals `wanted`.
pub open spec fn first_equal<T: PartialEq>(observers: Seq<T>, wanted: T, at: int) -> bool {
    &&& 0 <= at < observers.len()
    &&& observers[at].eq_spec(&wanted)
    &&& forall|j: int| 0 <= j < at ==> !(#[trigger] observers[j]).eq_spec(&wanted)
}

/// What observers subscribe to.
pub trait Subject<T: Observer> {
    /// The observers that are registered, in the order in which they came.
    spec fn observers(&self) -> Seq<T>;

    /// What the subject holds to tell its observers.
    spec fn measured(&self) -> Measurements;

    /// Puts an observer at the end of the list.
    fn register_observer(&mut self, o: T)
        ensures
            final(self).observers() == old(self).observers().push(o),
            final(self).measured() == old(self).measured(),
    ;

    /// Takes one observer off the list and hands it back: one that the
    /// comparison of `T` found equal to `o`. Where that comparison is `==` as
    /// contracts read it, this is the first such observer of the list, and
    /// nothing is taken off only if there is none.
    fn remove_observer(&mut self, o: &T) -> (removed: Option<T>) where T: PartialEq
        ensures
            final(self).measured() == old(self).measured(),
            removed is None ==> final(self).observers() == old(self).observers(),
            removed is Some ==> exists|at: int|
                0 <= at < old(self).observers().len() && old(self).observers()[at] == removed->0
                    && final(self).observers() == #[trigger] old(self).observers().remove(at),
            T::obeys_eq_spec() && removed is None ==> forall|j: int|
                0 <= j < old(self).observers().len() ==> !(#[trigger] old(self).observers()[j]).eq_spec(
                    o,
                ),
            T::obeys_eq_spec() && removed is Some ==> exists|at: int|
                first_equal(old(self).observers(), *o, at) && old(self).observers()[at]
                    == removed->0 && final(self).observers() == #[trigger] old(
                    self,
                ).observers().remove(at),
    ;

    /// Tells every observer what the subject holds, first to last. The result
    /// is what the observers said.
    fn notify_observers(&mut self) -> (said: String)
        ensures
            final(self).observers() == notified(old(self).observers(), old(self).measured()),
            final(self).measured() == old(self).measured(),
            said@ == notify_text(old(self).observers(), old(self).measured()),
    ;
}

/// The weather station.
pub struct WeatherDate<T: Observer> {
    observers: Vec<T>,
    temperature: i32,
    humidity: i32,
    pressure: i32,
}

impl<O: Observer> WeatherDate<O> {
    /// A station without observers that has measured nothing yet.
    pub fn new() -> (station: Self)
        ensures
            station.registered() == Seq::<O>::empty(),
            station.held() == (Measurements { temperature: 0, humidity: 0, pressure: 0 }),
    {
        WeatherDate { observers: Vec::new(), temperature: 0, humidity: 0, pressure: 0 }
    }

    /// The observers of the station.
    pub closed spec fn registered(&self) -> Seq<O> {
        self.observers@
    }

    /// The measurements that the station holds.
    pub closed spec fn held(&self) -> Measurements {
        Measurements {
            temperature: self.temperature,
            humidity: self.humidity,
            pressure: self.pressure,
        }
    }

    /// Takes in new measurements. Nobody is told.
    pub fn set_musurements(&mut self, temprature: i32, humidity: i32, pressure: i32)
        ensures
            final(self).held() == (Measurements { temperature: temprature, humidity, pressure }),
            final(self).registered() == old(self).registered(),
    {
        self.temperature = temprature;
        self.humidity = humidity;
        self.pressure = pressure;
    }

    /// The observer at place `i` of the list.
    pub fn observer(&self, i: usize) -> (o: Option<&O>)
        ensures
            o is Some <==> i < self.registered().len(),
            o is Some ==> *o->0 == self.registered()[i as int],
    {
        if i < self.observers.len() {
            Some(&self.observers[i])
        } else {
            None
        }
    }
}

impl<T: Observer> Subject<T> for WeatherDate<T> {
    open spec fn observers(&self) -> Seq<T> {
        self.registered()
    }

    open spec fn measured(&self) -> Measurements {
        self.held()
    }

    fn register_observer(&mut self, o: T) {
        self.observers.push(o);
    }

    fn remove_observer(&mut self, o: &T) -> (removed: Option<T>) where T: PartialEq {
        let mut i: usize = 0;
        while i < self.observers.len()
            invariant
                i <= self.observers.len(),
                *self == *old(self),
                T::obeys_eq_spec() ==> forall|j: int|
                    0 <= j < i ==> !(#[trigger] self.observers@[j]).eq_spec(o),
            decreases self.observers.len() - i,
        {
            if self.observers[i] == *o {
                let ghost at = i as int;
                let taken = self.observers.remove(i);
                proof {
                    assert(old(self).observers()[at] == taken);
                    assert(self.observers() == old(self).observers().remove(at));
                    if T::obeys_eq_spec() {
                        assert(first_equal(old(self).observers(), *o, at));
                    }
                }
                return Some(taken);
            }
            i = i + 1;
        }
        None
    }

    fn notify_observers(&mut self) -> (said: String) {
        let ghost before = self.observers@;
        let ghost measured = self.held();
        let mut said = String::new();
        let mut i: usize = 0;
        while i < self.observers.len()
            invariant
                i <= self.observers.len(),
                self.observers.len() == before.len(),
                self.held() == measured,
                self.temperature == measured.temperature,
                self.humidity == measured.humidity,
                self.pressure == measured.pressure,
                said@ == notify_text(before.take(i as int), measured),
                forall|j: int|
                    0 <= j < i ==> (#[trigger] self.observers[j]) == before[j].updated(
                        measured.temperature,
                        measured.humidity,
                        measured.pressure,
                    ),
                forall|j: int| i <= j < before.len() ==> (#[trigger] self.observers[j]) == before[j],
            decreases self.observers.len() - i,
        {
            proof {
                assert(before.take(i + 1).drop_last() =~= before.take(i as int));
                assert(before.take(i + 1).last() == before[i as int]);
            }
            let text = self.observers[i].update(self.temperature, self.humidity, self.pressure);
            said.append(text.as_str());
            i = i + 1;
        }
        proof {
            assert(before.take(i as int) =~= before);
            assert(self.observers@ =~= notified(before, measured));
        }
        said
    }
}

/// A display of the current conditions: it shows the temperature and the
/// humidity it was told last.
#[derive(Clone, Copy, Debug)]
pub struct CurrentConditionsDisplay {
    pub temperature: i32,
    pub humidity: i32,
}

impl PartialEq for CurrentConditionsDisplay {
    fn eq(&self, other: &Self) -> (same: bool) {
        self.temperature == other.temperature && self.humidity == other.humidity
    }
}

impl vstd::std_specs::cmp::PartialEqSpecImpl for CurrentConditionsDisplay {
    open spec fn obeys_eq_spec() -> bool {
        true
    }

    /// Two displays are equal when they show the same.
    open spec fn eq_spec(&self, other: &Self) -> bool {
        self.temperature == other.temperature && self.humidity == other.humidity
    }
}

/// The line of a display that shows that temperature and humidity.
pub open spec fn conditions_text(temperature: i32, humidity: i32) -> Seq<char> {
    "Current conditions: "@ + tenths(temperature as int) + " F degrees and "@ + tenths(
        humidity as int,
    ) + " % humidity"@
}

impl CurrentConditionsDisplay {
    /// A display that shows nothing yet, registered with the station as its
    /// last observer. The result is its place in the list.
    pub fn new(weather_data: &mut WeatherDate<Self>) -> (place: usize)
        ensures
            place == old(weather_data).registered().len(),
            final(weather_data).registered() == old(weather_data).registered().push(
                CurrentConditionsDisplay { temperature: 0, humidity: 0 },
            ),
            final(weather_data).held() == old(weather_data).held(),
    {
        let place = weather_data.observers.len();
        let s = CurrentConditionsDisplay { temperature: 0, humidity: 0 };
        weather_data.register_observer(s);
        place
    }

    /// The line that the display shows.
    pub fn to_string(&self) -> (line: String)
        ensures
            line@ == conditions_text(self.temperature, self.humidity),
    {
        let mut line = String::from_str("Current conditions: ");
        line.append(tenths_string(self.temperature).as_str());
        line.append(" F degrees and ");
        line.append(tenths_string(self.humidity).as_str());
        line.append(" % humidity");
        line
    }
}

impl Observer for CurrentConditionsDisplay {
    open spec fn updated(&self, temprature: i32, humidity: i32, pressure: i32) -> Self {
        CurrentConditionsDisplay { temperature: temprature, humidity }
    }

    open spec fn update_text(&self, temprature: i32, humidity: i32, pressure: i32) -> Seq<char> {
        conditions_text(temprature, humidity) + "\n"@
    }

    fn update(&mut self, temperature: i32, humidity: i32, _pressure: i32) -> (said: String) {
        self.temperature = temperature;
        self.humidity = humidity;
        let mut said = self.to_string();
        said.append("\n");
        said
    }
}

} // verus!
