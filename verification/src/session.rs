use vstd::prelude::*;

use crate::device::{AudioUnit, Controller, CpuEngine, JoypadKey, Mapper, PictureUnit};
use crate::error::{BusFault, EmuError};
use crate::nes::{Nes, NesView};

verus! {

/// A session of the emulator: unloaded at first, loaded once a console was
/// put into it. Every operation but loading needs a loaded session.
pub struct Session<C, M, P, A, J> {
    pub nes: Option<Nes<C, M, P, A, J>>,
}

impl<C, M, P, A, J> View for Session<C, M, P, A, J> {
    type V = Option<NesView<C, M, P, A, J>>;

    open spec fn view(&self) -> Option<NesView<C, M, P, A, J>> {
        match self.nes {
            Some(nes) => Some(nes@),
            None => None,
        }
    }
}

/// The outcome that the session reports for an operation on the console: a
/// fault of the console is passed on as [`EmuError::BusFault`].
pub open spec fn reported<T>(outcome: Result<T, BusFault>) -> Result<T, EmuError> {
    match outcome {
        Ok(value) => Ok(value),
        Err(_) => Err(EmuError::BusFault),
    }
}

/// Turns the outcome of an operation on the console into the one that the
/// session reports.
pub fn report<T>(outcome: Result<T, BusFault>) -> (res: Result<T, EmuError>)
    ensures
        res == reported(outcome),
{
    match outcome {
        Ok(value) => Ok(value),
        Err(_) => Err(EmuError::BusFault),
    }
}

impl<C: CpuEngine, M: Mapper, P: PictureUnit, A: AudioUnit, J: Controller> Session<C, M, P, A, J> {
    /// An unloaded session.
    pub fn new() -> (session: Self)
        ensures
            session@ is None,
    {
        Session { nes: None }
    }

    /// Whether a console is loaded.
    pub fn is_loaded(&self) -> (loaded: bool)
        ensures
            loaded == (self@ is Some),
    {
        self.nes.is_some()
    }

    /// Ends a load: `hardware` is the console that was built from the
    /// cartridge image, or `None` where the image was malformed or asked for
    /// an unsupported mapper. A console takes the place of the one that was
    /// loaded before; a failed load leaves the session as it was.
    pub fn load_rom(&mut self, hardware: Option<Nes<C, M, P, A, J>>) -> (res: Result<(), EmuError>)
        ensures
            match hardware {
                Some(nes) => res is Ok && final(self).nes == Some(nes),
                None => res == Err::<(), EmuError>(EmuError::LoadError)
                    && *final(self) == *old(self),
            },
    {
        match hardware {
            Some(nes) => {
                self.nes = Some(nes);
                Ok(())
            },
            None => Err(EmuError::LoadError),
        }
    }

    /// Resets the processor of the loaded console, as [`Nes::reset`] does.
    pub fn reset(&mut self) -> (res: Result<(), EmuError>)
        ensures
            old(self)@ is None ==> res == Err::<(), EmuError>(EmuError::NotLoaded)
                && *final(self) == *old(self),
            old(self)@ is Some ==> final(self)@ is Some && exists|
                nes: &mut Nes<C, M, P, A, J>,
                outcome: Result<(), BusFault>,
            |
                {
                    &&& *nes == old(self).nes->0 && *final(nes) == final(self).nes->0
                    &&& #[trigger] call_ensures(Nes::<C, M, P, A, J>::reset, (nes,), outcome)
                    &&& res == reported(outcome)
                },
    {
        match &mut self.nes {
            Some(nes) => report(nes.reset()),
            None => Err(EmuError::NotLoaded),
        }
    }

    /// Presses a button of the first controller of the loaded console.
    pub fn player1_keydown(&mut self, key: JoypadKey) -> (res: Result<(), EmuError>)
        ensures
            old(self)@ is None ==> res == Err::<(), EmuError>(EmuError::NotLoaded)
                && *final(self) == *old(self),
            old(self)@ is Some ==> final(self)@ is Some && exists|
                nes: &mut Nes<C, M, P, A, J>,
                outcome: (),
            |
                {
                    &&& *nes == old(self).nes->0 && *final(nes) == final(self).nes->0
                    &&& #[trigger] call_ensures(
                        Nes::<C, M, P, A, J>::player1_keydown,
                        (nes, key),
                        outcome,
                    )
                    &&& res is Ok
                },
    {
        match &mut self.nes {
            Some(nes) => {
                nes.player1_keydown(key);
                Ok(())
            },
            None => Err(EmuError::NotLoaded),
        }
    }

    /// Releases a button of the first controller of the loaded console.
    pub fn player1_keyup(&mut self, key: JoypadKey) -> (res: Result<(), EmuError>)
        ensures
            old(self)@ is None ==> res == Err::<(), EmuError>(EmuError::NotLoaded)
                && *final(self) == *old(self),
            old(self)@ is Some ==> final(self)@ is Some && exists|
                nes: &mut Nes<C, M, P, A, J>,
                outcome: (),
            |
                {
                    &&& *nes == old(self).nes->0 && *final(nes) == final(self).nes->0
                    &&& #[trigger] call_ensures(
                        Nes::<C, M, P, A, J>::player1_keyup,
                        (nes, key),
                        outcome,
                    )
                    &&& res is Ok
                },
    {
        match &mut self.nes {
            Some(nes) => {
                nes.player1_keyup(key);
                Ok(())
            },
            None => Err(EmuError::NotLoaded),
        }
    }

    /// Presses a button of the second controller of the loaded console.
    pub fn player2_keydown(&mut self, key: JoypadKey) -> (res: Result<(), EmuError>)
        ensures
            old(self)@ is None ==> res == Err::<(), EmuError>(EmuError::NotLoaded)
                && *final(self) == *old(self),
            old(self)@ is Some ==> final(self)@ is Some && exists|
                nes: &mut Nes<C, M, P, A, J>,
                outcome: (),
            |
                {
                    &&& *nes == old(self).nes->0 && *final(nes) == final(self).nes->0
                    &&& #[trigger] call_ensures(
                        Nes::<C, M, P, A, J>::player2_keydown,
                        (nes, key),
                        outcome,
                    )
                    &&& res is Ok
                },
    {
        match &mut self.nes {
            Some(nes) => {
                nes.player2_keydown(key);
                Ok(())
            },
            None => Err(EmuError::NotLoaded),
        }
    }

    /// Releases a button of the second controller of the loaded console.
    pub fn player2_keyup(&mut self, key: JoypadKey) -> (res: Result<(), EmuError>)
        ensures
            old(self)@ is None ==> res == Err::<(), EmuError>(EmuError::NotLoaded)
                && *final(self) == *old(self),
            old(self)@ is Some ==> final(self)@ is Some && exists|
                nes: &mut Nes<C, M, P, A, J>,
                outcome: (),
            |
                {
                    &&& *nes == old(self).nes->0 && *final(nes) == final(self).nes->0
                    &&& #[trigger] call_ensures(
                        Nes::<C, M, P, A, J>::player2_keyup,
                        (nes, key),
                        outcome,
                    )
                    &&& res is Ok
                },
    {
        match &mut self.nes {
            Some(nes) => {
                nes.player2_keyup(key);
                Ok(())
            },
            None => Err(EmuError::NotLoaded),
        }
    }

    /// Advances the loaded console by one step of the master clock, as
    /// [`Nes::tick`] does.
    pub fn tick(&mut self) -> (res: Result<(), EmuError>)
        ensures
            old(self)@ is None ==> res == Err::<(), EmuError>(EmuError::NotLoaded)
                && *final(self) == *old(self),
            old(self)@ is Some ==> final(self)@ is Some && exists|
                nes: &mut Nes<C, M, P, A, J>,
                outcome: Result<(), BusFault>,
            |
                {
                    &&& *nes == old(self).nes->0 && *final(nes) == final(self).nes->0
                    &&& #[trigger] call_ensures(Nes::<C, M, P, A, J>::tick, (nes,), outcome)
                    &&& res == reported(outcome)
                },
    {
        match &mut self.nes {
            Some(nes) => report(nes.tick()),
            None => Err(EmuError::NotLoaded),
        }
    }

    /// Runs the loaded console for one frame and hands out the frame, as
    /// [`Nes::render`] does.
    pub fn render(&mut self) -> (res: Result<Vec<u8>, EmuError>)
        ensures
            old(self)@ is None ==> res == Err::<Vec<u8>, EmuError>(EmuError::NotLoaded)
                && *final(self) == *old(self),
            old(self)@ is Some ==> final(self)@ is Some && exists|
                nes: &mut Nes<C, M, P, A, J>,
                outcome: Result<Vec<u8>, BusFault>,
            |
                {
                    &&& *nes == old(self).nes->0 && *final(nes) == final(self).nes->0
                    &&& #[trigger] call_ensures(Nes::<C, M, P, A, J>::render, (nes,), outcome)
                    &&& res == reported(outcome)
                },
    {
        match &mut self.nes {
            Some(nes) => report(nes.render()),
            None => Err(EmuError::NotLoaded),
        }
    }
}

} // verus!
