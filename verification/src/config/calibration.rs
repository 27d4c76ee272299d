//! Calibration of cameras and microphones.
//!
//! Measured quantities are single-precision numbers.  The record keeps each
//! by its IEEE 754 bit pattern: the store passes them on and never computes
//! with them.

use crate::domains::common::config::{ConfigError, ConfigErrorView, ConfigFilesEnums};
use crate::domains::common::gateway::{Commit, CommitStep, Committing, CommittingView, Load, Loading};
use crate::domains::common::text::{decimal, decimal_text, join3};
use vstd::prelude::*;

verus! {

/// A single-precision number, held by its IEEE 754 bit pattern.
#[derive(Clone, Copy, Debug, PartialEq, Eq)]
pub struct F32Bits {
    pub bits: u32,
}

#[derive(Debug, PartialEq, Eq)]
pub struct CalibrationCameraParameters {
    pub last_calibration_date: String,
    pub exposure: u32,
    pub gain: F32Bits,
    pub white_balance: String,
    pub focus: String,
    pub intrinsic_matrix: [F32Bits; 9],
    pub distortion_coefficients: [F32Bits; 5],
}

impl Clone for CalibrationCameraParameters {
    fn clone(&self) -> (copy: Self)
        ensures
            copy == *self,
    {
        CalibrationCameraParameters {
            last_calibration_date: self.last_calibration_date.clone(),
            exposure: self.exposure,
            gain: self.gain,
            white_balance: self.white_balance.clone(),
            focus: self.focus.clone(),
            intrinsic_matrix: self.intrinsic_matrix,
            distortion_coefficients: self.distortion_coefficients,
        }
    }
}

#[derive(Debug, PartialEq, Eq)]
pub struct CalibrationMicrophoneParameters {
    pub last_calibration_date: String,
    pub sensitivity: F32Bits,
    pub noise_reduction: bool,
}

impl Clone for CalibrationMicrophoneParameters {
    fn clone(&self) -> (copy: Self)
        ensures
            copy == *self,
    {
        CalibrationMicrophoneParameters {
            last_calibration_date: self.last_calibration_date.clone(),
            sensitivity: self.sensitivity,
            noise_reduction: self.noise_reduction,
        }
    }
}

#[derive(Debug, PartialEq, Eq)]
pub struct CalibrationParameters {
    pub camera: Vec<CalibrationCameraParameters>,
    pub microphone: Vec<CalibrationMicrophoneParameters>,
}

/// `CalibrationParameters` with its lists as sequences.
pub struct CalibrationParametersView {
    pub camera: Seq<CalibrationCameraParameters>,
    pub microphone: Seq<CalibrationMicrophoneParameters>,
}

impl View for CalibrationParameters {
    type V = CalibrationParametersView;

    open spec fn view(&self) -> CalibrationParametersView {
        CalibrationParametersView { camera: self.camera@, microphone: self.microphone@ }
    }
}

impl Clone for CalibrationParameters {
    fn clone(&self) -> (copy: Self)
        ensures
            copy@ == self@,
    {
        let camera = self.camera.clone();
        let microphone = self.microphone.clone();
        assert(camera@ =~= self.camera@);
        assert(microphone@ =~= self.microphone@);
        CalibrationParameters { camera, microphone }
    }
}

#[derive(Debug, PartialEq, Eq)]
pub struct CalibrationConfig {
    pub enabled: bool,
    pub last_total_calibration_date: String,
    pub parameters: CalibrationParameters,
}

/// `CalibrationConfig` with its lists as sequences.
pub struct CalibrationConfigView {
    pub enabled: bool,
    pub last_total_calibration_date: String,
    pub parameters: CalibrationParametersView,
}

impl View for CalibrationConfig {
    type V = CalibrationConfigView;

    open spec fn view(&self) -> CalibrationConfigView {
        CalibrationConfigView {
            enabled: self.enabled,
            last_total_calibration_date: self.last_total_calibration_date,
            parameters: self.parameters@,
        }
    }
}

impl Clone for CalibrationConfig {
    fn clone(&self) -> (copy: Self)
        ensures
            copy@ == self@,
    {
        CalibrationConfig {
            enabled: self.enabled,
            last_total_calibration_date: self.last_total_calibration_date.clone(),
            parameters: self.parameters.clone(),
        }
    }
}

/// The record of the calibration domain, as its file holds it.
#[derive(Debug, PartialEq, Eq)]
pub struct CalibrationData {
    pub calibration: CalibrationConfig,
}

/// `CalibrationData` with its lists as sequences.
pub struct CalibrationDataView {
    pub calibration: CalibrationConfigView,
}

impl View for CalibrationData {
    type V = CalibrationDataView;

    open spec fn view(&self) -> CalibrationDataView {
        CalibrationDataView { calibration: self.calibration@ }
    }
}

impl Clone for CalibrationData {
    fn clone(&self) -> (copy: Self)
        ensures
            copy@ == self@,
    {
        CalibrationData { calibration: self.calibration.clone() }
    }
}

impl CalibrationDataView {
    /// The record with other camera parameters.
    pub open spec fn with_camera(self, camera: Seq<CalibrationCameraParameters>) -> Self {
        CalibrationDataView {
            calibration: CalibrationConfigView {
                parameters: CalibrationParametersView { camera, ..self.calibration.parameters },
                ..self.calibration
            },
        }
    }

    /// The cameras of the record.
    pub open spec fn cameras(self) -> Seq<CalibrationCameraParameters> {
        self.calibration.parameters.camera
    }
}

/// The store of the calibration domain: the one authoritative copy of its
/// record.  Shared borrows read it, an exclusive borrow updates it.
pub struct CalibrationAccess {
    data: CalibrationData,
}

impl View for CalibrationAccess {
    type V = CalibrationDataView;

    closed spec fn view(&self) -> CalibrationDataView {
        self.data@
    }
}

/// Whether `commit` is the write-through that follows an update of a store
/// holding `data`.
pub open spec fn saves(commit: Committing<CalibrationData>, data: CalibrationDataView) -> bool {
    commit matches Committing::Pending(pending) && pending.file == ConfigFilesEnums::Calibration
        && pending.user && (pending.step matches CommitStep::CreateDir(record) && record@ == data)
}

/// The error for a camera that the record does not have.
pub open spec fn no_camera(index: usize) -> ConfigErrorView {
    ConfigErrorView::ParseError("Camera index "@ + decimal(index as nat) + " not found"@)
}

impl CalibrationAccess {
    /// The transaction that reads the record a new store starts with: the
    /// user file where the registry has the calibration flag set, the
    /// default file otherwise.
    pub fn load_calibration_config() -> (loading: Loading<CalibrationData>)
        ensures
            loading == Loading::<CalibrationData>::Pending(
                Load::registry_of(ConfigFilesEnums::Calibration),
            ),
    {
        Loading::Pending(Load::from_registry(ConfigFilesEnums::Calibration))
    }

    /// The transaction that reads the record of the default layer.
    pub fn load_default_config() -> (loading: Loading<CalibrationData>)
        ensures
            loading == Loading::<CalibrationData>::Pending(
                Load::default_of(ConfigFilesEnums::Calibration),
            ),
    {
        Loading::Pending(Load::from_default(ConfigFilesEnums::Calibration))
    }

    /// A store that holds what `load_calibration_config` ended with; there
    /// is no store where loading failed.
    pub fn new(loaded: Result<CalibrationData, ConfigError>) -> (store: Result<Self, ConfigError>)
        ensures
            match loaded {
                Ok(data) => store matches Ok(s) && s@ == data@,
                Err(e) => store matches Err(f) && f == e,
            },
    {
        match loaded {
            Ok(data) => Ok(CalibrationAccess { data }),
            Err(e) => Err(e),
        }
    }

    /// The write-through of the record as it stands.
    pub fn save_to_user_profile(&self) -> (commit: Committing<CalibrationData>)
        ensures
            saves(commit, self@),
    {
        Committing::Pending(Commit::save(ConfigFilesEnums::Calibration, self.data.clone()))
    }

    pub fn enabled(&self) -> (value: bool)
        ensures
            value == self@.calibration.enabled,
    {
        self.data.calibration.enabled
    }

    pub fn last_total_calibration_date(&self) -> (value: String)
        ensures
            value == self@.calibration.last_total_calibration_date,
    {
        self.data.calibration.last_total_calibration_date.clone()
    }

    pub fn camera_count(&self) -> (count: usize)
        ensures
            count == self@.cameras().len(),
    {
        self.data.calibration.parameters.camera.len()
    }

    /// The exposure of the camera at `index`, if the record has one there.
    pub fn get_camera_exposure(&self, index: usize) -> (exposure: Option<u32>)
        ensures
            exposure == if index < self@.cameras().len() {
                Some(self@.cameras()[index as int].exposure)
            } else {
                None
            },
    {
        if index < self.data.calibration.parameters.camera.len() {
            Some(self.data.calibration.parameters.camera[index].exposure)
        } else {
            None
        }
    }

    /// The gain of the camera at `index`, if the record has one there.
    pub fn get_camera_gain(&self, index: usize) -> (gain: Option<F32Bits>)
        ensures
            gain == if index < self@.cameras().len() {
                Some(self@.cameras()[index as int].gain)
            } else {
                None
            },
    {
        if index < self.data.calibration.parameters.camera.len() {
            Some(self.data.calibration.parameters.camera[index].gain)
        } else {
            None
        }
    }

    /// A handle that performs one update of this store.
    pub fn update(&mut self) -> (handle: CalibrationUpdate<'_>)
        ensures
            handle.calibration@ == old(self)@,
            final(handle.calibration)@ == final(self)@,
    {
        CalibrationUpdate { calibration: self }
    }

    /// Replaces the record by the one of the default layer, as
    /// `load_default_config` ended with it, and hands out the transaction
    /// that clears the calibration flag and removes the user file.  Where
    /// loading failed the store stays as it is and the error is the result.
    pub fn reset_to_default(&mut self, loaded: Result<CalibrationData, ConfigError>) -> (commit:
        Committing<CalibrationData>)
        ensures
            match loaded {
                Ok(data) => final(self)@ == data@ && commit == Committing::Pending(
                    Commit::<CalibrationData>::resetting(ConfigFilesEnums::Calibration),
                ),
                Err(e) => final(self)@ == old(self)@ && commit == Committing::<
                    CalibrationData,
                >::Finished(Err(e)),
            },
    {
        match loaded {
            Ok(data) => {
                self.data = data;
                Committing::Pending(Commit::reset(ConfigFilesEnums::Calibration))
            },
            Err(e) => Committing::Finished(Err(e)),
        }
    }

    /// A copy of the whole record.
    pub fn get_full_config(&self) -> (data: CalibrationData)
        ensures
            data@ == self@,
    {
        self.data.clone()
    }
}

/// One update of the calibration store.  Every method changes the record
/// in memory first and hands out the write-through of the changed record.
pub struct CalibrationUpdate<'a> {
    pub calibration: &'a mut CalibrationAccess,
}

impl<'a> CalibrationUpdate<'a> {
    pub fn enabled(self, value: bool) -> (commit: Committing<CalibrationData>)
        ensures
            final(self.calibration)@ == (CalibrationDataView {
                calibration: CalibrationConfigView {
                    enabled: value,
                    ..old(self.calibration)@.calibration
                },
            }),
            saves(commit, final(self.calibration)@),
    {
        self.calibration.data.calibration.enabled = value;
        self.calibration.save_to_user_profile()
    }

    /// Sets the exposure of the camera at `index`.  Where the record has no
    /// camera there, nothing changes, nothing is written, and the result is
    /// a `ParseError` that names the index.
    pub fn set_camera_exposure(self, index: usize, exposure: u32) -> (commit: Committing<
        CalibrationData,
    >)
        ensures
            index < old(self.calibration)@.cameras().len() ==> {
                &&& final(self.calibration)@ == old(self.calibration)@.with_camera(
                    old(self.calibration)@.cameras().update(
                        index as int,
                        CalibrationCameraParameters {
                            exposure,
                            ..old(self.calibration)@.cameras()[index as int]
                        },
                    ),
                )
                &&& saves(commit, final(self.calibration)@)
            },
            index >= old(self.calibration)@.cameras().len() ==> {
                &&& final(self.calibration)@ == old(self.calibration)@
                &&& commit@ == CommittingView::<CalibrationData>::Finished(Err(no_camera(index)))
            },
    {
        if index < self.calibration.data.calibration.parameters.camera.len() {
            self.calibration.data.calibration.parameters.camera[index].exposure = exposure;
            self.calibration.save_to_user_profile()
        } else {
            Committing::Finished(Err(camera_not_found(index)))
        }
    }

    /// Sets the gain of the camera at `index`.  Where the record has no
    /// camera there, nothing changes, nothing is written, and the result is
    /// a `ParseError` that names the index.
    pub fn set_camera_gain(self, index: usize, gain: F32Bits) -> (commit: Committing<
        CalibrationData,
    >)
        ensures
            index < old(self.calibration)@.cameras().len() ==> {
                &&& final(self.calibration)@ == old(self.calibration)@.with_camera(
                    old(self.calibration)@.cameras().update(
                        index as int,
                        CalibrationCameraParameters {
                            gain,
                            ..old(self.calibration)@.cameras()[index as int]
                        },
                    ),
                )
                &&& saves(commit, final(self.calibration)@)
            },
            index >= old(self.calibration)@.cameras().len() ==> {
                &&& final(self.calibration)@ == old(self.calibration)@
                &&& commit@ == CommittingView::<CalibrationData>::Finished(Err(no_camera(index)))
            },
    {
        if index < self.calibration.data.calibration.parameters.camera.len() {
            self.calibration.data.calibration.parameters.camera[index].gain = gain;
            self.calibration.save_to_user_profile()
        } else {
            Committing::Finished(Err(camera_not_found(index)))
        }
    }

    /// Applies `updater` to the record in one step: no reader sees part of
    /// its changes.
    pub fn batch<F>(self, updater: F) -> (commit: Committing<CalibrationData>) where
        F: FnOnce(&mut CalibrationData),

        requires
            forall|record: &mut CalibrationData|
                record@ == old(self.calibration)@ ==> call_requires(updater, (record,)),
        ensures
            exists|record: &mut CalibrationData|
                record@ == old(self.calibration)@ && final(record)@ == final(self.calibration)@
                    && #[trigger] call_ensures(updater, (record,), ()),
            saves(commit, final(self.calibration)@),
    {
        updater(&mut self.calibration.data);
        self.calibration.save_to_user_profile()
    }
}

/// The error for a camera that the record does not have.
fn camera_not_found(index: usize) -> (e: ConfigError)
    ensures
        e@ == no_camera(index),
{
    let number = decimal_text(index);
    ConfigError::ParseError(join3("Camera index ", number.as_str(), " not found"))
}

} // verus!
