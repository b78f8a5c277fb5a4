use vstd::prelude::*;
use vstd::string::*;

use crate::error::AppError;
use crate::generator::{spec_generate, QrGenError, QrGenerator};
use crate::text::{join_short_url, spec_join_url};

verus! {

/// The reason string attached to a failed generation.
pub open spec fn spec_qr_failure_reason(e: QrGenError) -> Seq<char> {
    match e {
        QrGenError::ContentTooLarge => "content exceeds the maximum symbol capacity"@,
        QrGenError::EncodingFailure => "image encoding failed"@,
    }
}

/// QR code generation service: one configured generator and the base URL
/// under which short codes are served.
#[derive(Clone)]
pub struct QrService {
    generator: QrGenerator,
    base_url: String,
}

impl QrService {
    /// The configured generator.
    pub closed spec fn spec_generator(&self) -> QrGenerator {
        self.generator
    }

    /// The configured base URL.
    pub closed spec fn spec_base_url(&self) -> Seq<char> {
        self.base_url@
    }

    /// The service is usable when its generator is.
    pub open spec fn wf(&self) -> bool {
        self.spec_generator().wf()
    }

    /// Build the service from a configured generator and base URL.
    pub fn new(generator: QrGenerator, base_url: String) -> (r: Self)
        ensures
            r.spec_generator() == generator,
            r.spec_base_url() == base_url@,
    {
        QrService { generator, base_url }
    }

    /// Generate the QR PNG for a raw URL (no shortening). Succeeds exactly
    /// when the configured generator does, and maps a generation failure to
    /// the application error with the failure's reason attached.
    pub fn generate_for_url(&self, url: &str) -> (r: Result<Vec<u8>, AppError>)
        requires
            self.wf(),
        ensures
            match r {
                Ok(b) => spec_generate(
                    self.spec_generator().spec_size(),
                    self.spec_generator().spec_logo(),
                    url@,
                ) == Ok::<Seq<u8>, QrGenError>(b@),
                Err(e) => e matches AppError::QrGeneration(m) && spec_generate(
                    self.spec_generator().spec_size(),
                    self.spec_generator().spec_logo(),
                    url@,
                ) matches Err(g) && m@ == spec_qr_failure_reason(g),
            },
    {
        match self.generator.generate(url) {
            Ok(b) => Ok(b),
            Err(e) => {
                let reason = match e {
                    QrGenError::ContentTooLarge => String::from_str(
                        "content exceeds the maximum symbol capacity",
                    ),
                    QrGenError::EncodingFailure => String::from_str("image encoding failed"),
                };
                Err(AppError::QrGeneration(reason))
            },
        }
    }

    /// Generate the QR PNG for a short code served under the configured base
    /// URL.
    pub fn generate_qr(&self, short_code: &str) -> (r: Result<Vec<u8>, AppError>)
        requires
            self.wf(),
        ensures
            match r {
                Ok(b) => spec_generate(
                    self.spec_generator().spec_size(),
                    self.spec_generator().spec_logo(),
                    spec_join_url(self.spec_base_url(), short_code@),
                ) == Ok::<Seq<u8>, QrGenError>(b@),
                Err(e) => e matches AppError::QrGeneration(m) && spec_generate(
                    self.spec_generator().spec_size(),
                    self.spec_generator().spec_logo(),
                    spec_join_url(self.spec_base_url(), short_code@),
                ) matches Err(g) && m@ == spec_qr_failure_reason(g),
            },
    {
        let url = join_short_url(self.base_url.as_str(), short_code);
        self.generate_for_url(url.as_str())
    }
}

} // verus!
