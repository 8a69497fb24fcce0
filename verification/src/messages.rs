//! The messages that pass between the supervisor, the device threads and the
//! controller, and the values by which a session reports how it ended.

use crate::config::{ConfigModel, Configuration};
use vstd::prelude::*;

verus! {

/// The other side of a channel is gone and nothing is left in the channel.
#[derive(Clone, Copy, Debug, PartialEq, Eq, Structural)]
pub struct Disconnected;

/// What the capture and playback threads of a device group report.
///
/// Speed and volume travel as the bit patterns of an `f64` and an `f32`.
#[derive(Debug, PartialEq, Eq)]
pub enum StatusMessage {
    PlaybackReady,
    CaptureReady,
    PlaybackError(String),
    CaptureError(String),
    PlaybackFormatChange(usize),
    CaptureFormatChange(usize),
    PlaybackDone,
    CaptureDone,
    SetSpeed(u64),
    SetVolume(u32),
    SetMute(bool),
}

/// A [`StatusMessage`] with its texts as sequences of characters.
pub enum StatusModel {
    PlaybackReady,
    CaptureReady,
    PlaybackError(Seq<char>),
    CaptureError(Seq<char>),
    PlaybackFormatChange(usize),
    CaptureFormatChange(usize),
    PlaybackDone,
    CaptureDone,
    SetSpeed(u64),
    SetVolume(u32),
    SetMute(bool),
}

impl View for StatusMessage {
    type V = StatusModel;

    open spec fn view(&self) -> StatusModel {
        match self {
            StatusMessage::PlaybackReady => StatusModel::PlaybackReady,
            StatusMessage::CaptureReady => StatusModel::CaptureReady,
            StatusMessage::PlaybackError(text) => StatusModel::PlaybackError(text@),
            StatusMessage::CaptureError(text) => StatusModel::CaptureError(text@),
            StatusMessage::PlaybackFormatChange(rate) => StatusModel::PlaybackFormatChange(*rate),
            StatusMessage::CaptureFormatChange(rate) => StatusModel::CaptureFormatChange(*rate),
            StatusMessage::PlaybackDone => StatusModel::PlaybackDone,
            StatusMessage::CaptureDone => StatusModel::CaptureDone,
            StatusMessage::SetSpeed(speed) => StatusModel::SetSpeed(*speed),
            StatusMessage::SetVolume(volume) => StatusModel::SetVolume(*volume),
            StatusMessage::SetMute(mute) => StatusModel::SetMute(*mute),
        }
    }
}

/// A command to the capture thread of a device group. The speed is the bit
/// pattern of an `f64`.
#[derive(Clone, Copy, Debug, PartialEq, Eq, Structural)]
pub enum CommandMessage {
    SetSpeed { speed: u64 },
    Exit,
}

/// A command to the engine, from a signal or from a remote client.
#[derive(Debug)]
pub enum ControllerMessage {
    ConfigChanged(Box<Configuration>),
    Stop,
    Exit,
}

/// A [`ControllerMessage`] with its configuration as a [`ConfigModel`].
pub enum ControllerModel {
    ConfigChanged(ConfigModel),
    Stop,
    Exit,
}

impl View for ControllerMessage {
    type V = ControllerModel;

    open spec fn view(&self) -> ControllerModel {
        match self {
            ControllerMessage::ConfigChanged(config) => ControllerModel::ConfigChanged(config@),
            ControllerMessage::Stop => ControllerModel::Stop,
            ControllerMessage::Exit => ControllerModel::Exit,
        }
    }
}

/// What flows from capture through processing to playback. Samples are the bit
/// patterns of `f64` values, one list per channel.
#[derive(Debug, PartialEq, Eq)]
pub enum AudioMessage {
    Pause,
    Audio(Vec<Vec<u64>>),
    EndOfStream,
}

/// Why processing stopped, or `NotStopped` while it runs.
#[derive(Debug, PartialEq, Eq)]
pub enum StopReason {
    NotStopped,
    Done,
    CaptureError(String),
    PlaybackError(String),
    UnknownError(String),
    CaptureFormatChange(usize),
    PlaybackFormatChange(usize),
}

/// A [`StopReason`] with its texts as sequences of characters.
pub enum StopModel {
    NotStopped,
    Done,
    CaptureError(Seq<char>),
    PlaybackError(Seq<char>),
    UnknownError(Seq<char>),
    CaptureFormatChange(usize),
    PlaybackFormatChange(usize),
}

impl View for StopReason {
    type V = StopModel;

    open spec fn view(&self) -> StopModel {
        match self {
            StopReason::NotStopped => StopModel::NotStopped,
            StopReason::Done => StopModel::Done,
            StopReason::CaptureError(text) => StopModel::CaptureError(text@),
            StopReason::PlaybackError(text) => StopModel::PlaybackError(text@),
            StopReason::UnknownError(text) => StopModel::UnknownError(text@),
            StopReason::CaptureFormatChange(rate) => StopModel::CaptureFormatChange(*rate),
            StopReason::PlaybackFormatChange(rate) => StopModel::PlaybackFormatChange(*rate),
        }
    }
}

/// How a session ended: the engine looks for a configuration to run next, or
/// it quits.
#[derive(Clone, Copy, Debug, PartialEq, Eq, Structural)]
pub enum ExitState {
    Restart,
    Exit,
}

/// A session ended in an error.
#[derive(Clone, Copy, Debug, PartialEq, Eq, Structural)]
pub enum EngineError {
    /// Every sender of controller commands is gone.
    ControlClosed,
}

} // verus!
