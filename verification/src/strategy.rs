//! The strategy interfaces for thumbnail production, and the pipeline-based
//! strategy's data. A strategy may offer a channel for progress reports and
//! runs to completion when executed; a cancelable one can also be stopped
//! from outside.

use crate::gst::spec_pipeline_description;
use vstd::prelude::*;
use vstd::string::*;

verus! {

/// The standard-library channel sender handed out for progress reports.
#[verifier::external_type_specification]
#[verifier::external_body]
#[verifier::reject_recursive_types(T)]
pub struct ExSender<T>(std::sync::mpsc::Sender<T>);

/// A long-running operation that can be cancelled from outside.
pub trait CancelableStrategy {
    type CancelSuccess;

    type CancelError;

    fn cancel() -> Result<Self::CancelSuccess, Self::CancelError>;
}

/// One way of producing thumbnails.
pub trait ThumbnailCreationStrategy {
    type ThumbnailCreationSuccess;

    type ThumbnailCreationFailure;

    type ThumbnailCreationReport;

    fn get_report_channel() -> Option<
        std::sync::mpsc::Sender<Self::ThumbnailCreationReport>,
    > where Self: Sized;

    fn execute(self) -> Result<
        Self::ThumbnailCreationSuccess,
        Self::ThumbnailCreationFailure,
    > where Self: Sized;
}

/// Why the pipeline-based strategy failed.
#[derive(Debug)]
pub enum GstreamerThumbnailCreationFailure {
    /// No input file was set before executing.
    InputFileMissing,
    /// The framework failed to initialise; carries its message.
    GstreamerInitializationFailed(String),
    /// The framework rejected the pipeline description; carries its message.
    FailedToCreatePipeline(String),
    /// A pipeline element was not of the expected kind.
    FailedToDowncast,
    /// The sink element failed; carries the message.
    AppsinkError(String),
}

/// The pipeline-based thumbnail strategy's data: its input file, if set.
#[derive(Debug)]
pub struct GstreamerThumbnailCreation {
    pub input_file: Option<String>,
}

impl GstreamerThumbnailCreation {
    /// Sets the input file.
    pub fn set_input(&mut self, input: &str)
        ensures
            final(self).input_file matches Some(p) && p@ == input@,
    {
        self.input_file = Some(String::from_str(input));
    }

    /// The input file, if one has been set.
    fn get_input(&self) -> (r: Option<&str>)
        ensures
            match self.input_file {
                Some(p) => r matches Some(s) && s@ == p@,
                None => r is None,
            },
    {
        match &self.input_file {
            Some(p) => Some(p.as_str()),
            None => None,
        }
    }

    /// The pipeline description for the set input; without an input there is
    /// nothing to describe.
    fn create_pipeline(&self) -> (r: Result<String, GstreamerThumbnailCreationFailure>)
        ensures
            match self.input_file {
                Some(p) => r matches Ok(d) && d@ == spec_pipeline_description(p@),
                None => r matches Err(GstreamerThumbnailCreationFailure::InputFileMissing),
            },
    {
        let uri = match self.get_input() {
            Some(u) => u,
            None => {
                return Err(GstreamerThumbnailCreationFailure::InputFileMissing);
            },
        };
        let mut description = String::from_str("uridecodebin uri=");
        description.append(uri);
        description.append(" ! videoconvert ! appsink name=sink\n");
        Ok(description)
    }
}

} // verus!
