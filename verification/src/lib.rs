//! Hark's verified core: the audio window arithmetic and capture ring, the
//! text rules behind the dictionary and spellbook editors, presentation
//! formatting, and the small state machines that drive the tray, the
//! overlay and the window behaviour.

pub mod window;
pub mod ring;
pub mod text;
pub mod format;
pub mod history;
pub mod history_page;
pub mod stats;
pub mod invocations;
pub mod terms;
pub mod dictionary;
pub mod spellbook_terms;
pub mod spellbook;
pub mod spellbook_page;
pub mod settings;
pub mod pipeline;
pub mod tray;
pub mod feedback;
pub mod footer;
pub mod keys;
pub mod update;
pub mod model_download;
pub mod capture;
pub mod cleanup;
pub mod pages;
pub mod window_behavior;
pub mod autostart;
pub mod resample;
pub mod assemble;
pub mod startup;
pub mod device;
pub mod alternates;
