//! Facade pattern: a home theater made of many devices, and one object that
//! starts and ends a film night with a single call each, stepping through the
//! devices in the right order.

use crate::text::{decimal, decimal_string};
use vstd::prelude::*;

verus! {

pub struct Amplifier;

impl Amplifier {
    pub fn on(&self) -> (said: String)
        ensures
            said@ == "Top-O-Line Amplifier on\n"@,
    {
        String::from_str("Top-O-Line Amplifier on\n")
    }

    pub fn set_dvd(&self, dvd: &DvdPlayer) -> (said: String)
        ensures
            said@ == "Top-O-Line Amplifier setting DVD player to Top-O-Line DVD Player\n"@,
    {
        String::from_str("Top-O-Line Amplifier setting DVD player to Top-O-Line DVD Player\n")
    }

    pub fn set_surround_sound(&self) -> (said: String)
        ensures
            said@ == "Top-O-Line Amplifier surround sound on\n"@,
    {
        String::from_str("Top-O-Line Amplifier surround sound on\n")
    }

    /// What the amplifier says when its volume is set.
    pub open spec fn volume_text(volume: nat) -> Seq<char> {
        "Top-O-Line Amplifier setting volume to "@ + decimal(volume) + "\n"@
    }

    pub fn set_volume(&self, volume: usize) -> (said: String)
        ensures
            said@ == Self::volume_text(volume as nat),
    {
        let mut said = String::from_str("Top-O-Line Amplifier setting volume to ");
        let level = decimal_string(volume);
        said.append(level.as_str());
        said.append("\n");
        said
    }

    pub fn off(&self) -> (said: String)
        ensures
            said@ == "Top-O-Line Amplifier off\n"@,
    {
        String::from_str("Top-O-Line Amplifier off\n")
    }
}

pub struct Tuner;

pub struct DvdPlayer {
    /// The film in the player, if there is one.
    pub movie: Option<String>,
}

impl DvdPlayer {
    pub fn on(&self) -> (said: String)
        ensures
            said@ == "Top-O-Line DVD on\n"@,
    {
        String::from_str("Top-O-Line DVD on\n")
    }

    /// What the player says when it stops a film.
    pub open spec fn stop_text(movie: Seq<char>) -> Seq<char> {
        "Top-O-Line DVD stopped \""@ + movie + "\"\n"@
    }

    /// Stops the film. There must be one in the player.
    pub fn stop(&self) -> (said: String)
        requires
            self.movie is Some,
        ensures
            said@ == Self::stop_text(self.movie->0@),
    {
        let mut said = String::from_str("Top-O-Line DVD stopped \"");
        match &self.movie {
            Some(movie) => {
                said.append(movie.as_str());
            },
            None => {},
        }
        said.append("\"\n");
        said
    }

    /// What the player says when it plays a film.
    pub open spec fn play_text(movie: Seq<char>) -> Seq<char> {
        "Top-O-Line DVD play \""@ + movie + "\"\n"@
    }

    /// Puts the film into the player and plays it.
    pub fn play(&mut self, movie: &str) -> (said: String)
        ensures
            final(self).movie is Some,
            final(self).movie->0@ == movie@,
            said@ == Self::play_text(movie@),
    {
        self.movie = Some(String::from_str(movie));
        let mut said = String::from_str("Top-O-Line DVD play \"");
        said.append(movie);
        said.append("\"\n");
        said
    }

    pub fn off(&self) -> (said: String)
        ensures
            said@ == "Top-O-Line DVD off\n"@,
    {
        String::from_str("Top-O-Line DVD off\n")
    }

    pub fn eject(&self) -> (said: String)
        ensures
            said@ == "Top-O-Line DVD eject\n"@,
    {
        String::from_str("Top-O-Line DVD eject\n")
    }
}

pub struct CdPlayer;

pub struct Projector;

impl Projector {
    pub fn on(&self) -> (said: String)
        ensures
            said@ == "Top-O-Line Project on\n"@,
    {
        String::from_str("Top-O-Line Project on\n")
    }

    pub fn wide_screen_mode(&self) -> (said: String)
        ensures
            said@ == "Top-O-Line Project is widescreen mode\n"@,
    {
        String::from_str("Top-O-Line Project is widescreen mode\n")
    }

    pub fn off(&self) -> (said: String)
        ensures
            said@ == "Top-O-Line Project off\n"@,
    {
        String::from_str("Top-O-Line Project off\n")
    }
}

pub struct TheaterLights;

impl TheaterLights {
    /// What the lights say when they are dimmed.
    pub open spec fn dim_text(num: nat) -> Seq<char> {
        "Theater Ceiling Lights dimming to "@ + decimal(num) + "%\n"@
    }

    pub fn dim(&self, num: usize) -> (said: String)
        ensures
            said@ == Self::dim_text(num as nat),
    {
        let mut said = String::from_str("Theater Ceiling Lights dimming to ");
        let level = decimal_string(num);
        said.append(level.as_str());
        said.append("%\n");
        said
    }

    pub fn on(&self) -> (said: String)
        ensures
            said@ == "Theater Ceiling Lights on\n"@,
    {
        String::from_str("Theater Ceiling Lights on\n")
    }
}

pub struct Screen;

impl Screen {
    pub fn down(&self) -> (said: String)
        ensures
            said@ == "Theater Screen going down\n"@,
    {
        String::from_str("Theater Screen going down\n")
    }

    pub fn up(&self) -> (said: String)
        ensures
            said@ == "Theater Screen going up\n"@,
    {
        String::from_str("Theater Screen going up\n")
    }
}

pub struct PopcornPopper;

impl PopcornPopper {
    pub fn on(&self) -> (said: String)
        ensures
            said@ == "Popcorn Popper on\n"@,
    {
        String::from_str("Popcorn Popper on\n")
    }

    pub fn off(&self) -> (said: String)
        ensures
            said@ == "Popcorn Popper off\n"@,
    {
        String::from_str("Popcorn Popper off\n")
    }

    pub fn pop(&self) -> (said: String)
        ensures
            said@ == "Popcorn Popper popping popcorn!\n"@,
    {
        String::from_str("Popcorn Popper popping popcorn!\n")
    }
}

/// What the devices say, one after the other, while a film night starts.
pub open spec fn watch_text(movie: Seq<char>) -> Seq<char> {
    "Get ready to watch a movie...\n"@ + "Popcorn Popper on\n"@
        + "Popcorn Popper popping popcorn!\n"@ + TheaterLights::dim_text(10)
        + "Theater Screen going down\n"@ + "Top-O-Line Project on\n"@
        + "Top-O-Line Project is widescreen mode\n"@ + "Top-O-Line Amplifier on\n"@
        + "Top-O-Line Amplifier setting DVD player to Top-O-Line DVD Player\n"@
        + "Top-O-Line Amplifier surround sound on\n"@ + Amplifier::volume_text(5)
        + "Top-O-Line DVD on\n"@ + DvdPlayer::play_text(movie)
}

/// What the devices say, one after the other, while a film night ends.
pub open spec fn end_text(movie: Seq<char>) -> Seq<char> {
    "Shutting movie theater down...\n"@ + "Popcorn Popper off\n"@
        + "Theater Ceiling Lights on\n"@ + "Theater Screen going up\n"@
        + "Top-O-Line Project off\n"@ + "Top-O-Line Amplifier off\n"@ + DvdPlayer::stop_text(
        movie,
    ) + "Top-O-Line DVD eject\n"@ + "Top-O-Line DVD off\n"@
}

pub struct HomeTheaterFacade {
    amp: Amplifier,
    tuner: Tuner,
    dvd: DvdPlayer,
    cd: CdPlayer,
    projector: Projector,
    lights: TheaterLights,
    screen: Screen,
    popper: PopcornPopper,
}

impl HomeTheaterFacade {
    /// The film in the player of this theater, if there is one.
    pub closed spec fn movie(&self) -> Option<Seq<char>> {
        match self.dvd.movie {
            Some(movie) => Some(movie@),
            None => None,
        }
    }

    pub fn new(
        amp: Amplifier,
        tuner: Tuner,
        dvd: DvdPlayer,
        cd: CdPlayer,
        projector: Projector,
        lights: TheaterLights,
        screen: Screen,
        popper: PopcornPopper,
    ) -> (theater: Self)
        ensures
            theater.movie() is Some <==> dvd.movie is Some,
            dvd.movie is Some ==> theater.movie() == Some(dvd.movie->0@),
    {
        HomeTheaterFacade { amp, tuner, dvd, cd, projector, lights, screen, popper }
    }

    /// Whether there is a film in the player.
    pub fn has_movie(&self) -> (loaded: bool)
        ensures
            loaded == self.movie() is Some,
    {
        self.dvd.movie.is_some()
    }

    /// Starts a film night: popcorn, lights, screen, projector, sound, and
    /// the film.
    pub fn watch_movie(&mut self, movie: &str) -> (said: String)
        ensures
            final(self).movie() == Some(movie@),
            said@ == watch_text(movie@),
    {
        let mut said = String::from_str("Get ready to watch a movie...\n");
        said.append(self.popper.on().as_str());
        said.append(self.popper.pop().as_str());
        said.append(self.lights.dim(10).as_str());
        said.append(self.screen.down().as_str());
        said.append(self.projector.on().as_str());
        said.append(self.projector.wide_screen_mode().as_str());
        said.append(self.amp.on().as_str());
        said.append(self.amp.set_dvd(&self.dvd).as_str());
        said.append(self.amp.set_surround_sound().as_str());
        said.append(self.amp.set_volume(5).as_str());
        said.append(self.dvd.on().as_str());
        said.append(self.dvd.play(movie).as_str());
        said
    }

    /// Ends the film night: everything is switched off and the film comes
    /// out. There must be a film in the player.
    pub fn end_movie(&self) -> (said: String)
        requires
            self.movie() is Some,
        ensures
            said@ == end_text(self.movie()->0),
    {
        let mut said = String::from_str("Shutting movie theater down...\n");
        said.append(self.popper.off().as_str());
        said.append(self.lights.on().as_str());
        said.append(self.screen.up().as_str());
        said.append(self.projector.off().as_str());
        said.append(self.amp.off().as_str());
        said.append(self.dvd.stop().as_str());
        said.append(self.dvd.eject().as_str());
        said.append(self.dvd.off().as_str());
        said
    }
}

} // verus!
