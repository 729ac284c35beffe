//! Building the media pipeline used for thumbnail extraction.
//!
//! The pipeline is assembled here as its textual description; launching it
//! needs the multimedia framework's own libraries and stays with the
//! embedding program, which maps that framework's errors onto the `String`
//! payloads of the error types here.

use vstd::prelude::*;
use vstd::string::*;

verus! {

/// Why a pipeline could not be built or run.
#[derive(Debug)]
pub enum GstreamerBuilderError {
    /// No input file was set before building.
    InputFileMissing,
    /// The framework failed to initialise; carries its message.
    GstreamerInitializationFailed(String),
    /// The framework rejected the pipeline description; carries its message.
    FailedToCreatePipeline(String),
    /// A pipeline element was not of the expected kind.
    FailedToDowncast,
    /// The sink element failed; carries the message.
    AppsinkError(String),
}

/// A thumbnail pipeline under construction: just its input file, if one has
/// been set.
#[derive(Debug)]
pub struct GstreamerBuilder {
    pub input_file: Option<String>,
}

/// The description of a pipeline that decodes `uri`, converts its video and
/// hands frames to a named application sink.
pub open spec fn spec_pipeline_description(uri: Seq<char>) -> Seq<char> {
    "uridecodebin uri="@ + uri + " ! videoconvert ! appsink name=sink\n"@
}

impl GstreamerBuilder {
    /// Sets the input file.
    pub fn set_input(&mut self, input: &str)
        ensures
            final(self).input_file matches Some(p) && p@ == input@,
    {
        self.input_file = Some(String::from_str(input));
    }

    /// The input file, if one has been set.
    fn get_input(&self) -> (r: Option<&str>)
        ensures
            match self.input_file {
                Some(p) => r matches Some(s) && s@ == p@,
                None => r is None,
            },
    {
        match &self.input_file {
            Some(p) => Some(p.as_str()),
            None => None,
        }
    }

    /// The pipeline description for the set input; without an input there is
    /// nothing to describe.
    fn create_pipeline(&self) -> (r: Result<String, GstreamerBuilderError>)
        ensures
            match self.input_file {
                Some(p) => r matches Ok(d) && d@ == spec_pipeline_description(p@),
                None => r matches Err(GstreamerBuilderError::InputFileMissing),
            },
    {
        let uri = match self.get_input() {
            Some(u) => u,
            None => {
                return Err(GstreamerBuilderError::InputFileMissing);
            },
        };
        let mut description = String::from_str("uridecodebin uri=");
        description.append(uri);
        description.append(" ! videoconvert ! appsink name=sink\n");
        Ok(description)
    }

    /// Builds the pipeline: validates that an input was set and hands back
    /// the description the framework is to launch.
    pub fn build(self) -> (r: Result<String, GstreamerBuilderError>)
        ensures
            match self.input_file {
                Some(p) => r matches Ok(d) && d@ == spec_pipeline_description(p@),
                None => r matches Err(GstreamerBuilderError::InputFileMissing),
            },
    {
        self.create_pipeline()
    }
}

} // verus!
