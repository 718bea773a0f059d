use vstd::prelude::*;
use crate::proxy::message::{record_view, HttpResponse, LogRecord, LogRecordView};
use crate::utils::error::FerrumError;

verus! {

/// The stage that every response passes once on its way back, and that can be switched off.
pub struct ResponseInterceptor {
    enabled: bool,
}

impl ResponseInterceptor {
    pub closed spec fn spec_is_enabled(&self) -> bool {
        self.enabled
    }

    /// The interceptor as `new` makes it.
    pub closed spec fn spec_new() -> Self {
        ResponseInterceptor { enabled: true }
    }

    /// The interceptor after `enable`.
    pub closed spec fn spec_enable(self) -> Self {
        ResponseInterceptor { enabled: true }
    }

    /// The interceptor after `disable`.
    pub closed spec fn spec_disable(self) -> Self {
        ResponseInterceptor { enabled: false }
    }

    /// What `intercept` returns: the response itself, as no transformation is
    /// configured.
    pub open spec fn spec_intercept(&self, response: HttpResponse) -> Result<HttpResponse, FerrumError> {
        Ok(response)
    }

    /// What `observe` reports: the version and the status of the response while
    /// the stage is enabled, nothing while it is disabled.
    pub open spec fn spec_observe(&self, response: &HttpResponse) -> Option<LogRecordView> {
        if self.spec_is_enabled() {
            Some(LogRecordView::Response { version: response.version, status: response.status })
        } else {
            None
        }
    }

    /// A new interceptor is enabled.
    pub fn new() -> (interceptor: Self)
        ensures
            interceptor == Self::spec_new(),
            interceptor.is_enabled(),
    {
        ResponseInterceptor { enabled: true }
    }

    pub fn enable(&mut self)
        ensures
            *final(self) == old(self).spec_enable(),
            final(self).is_enabled(),
    {
        self.enabled = true;
    }

    pub fn disable(&mut self)
        ensures
            *final(self) == old(self).spec_disable(),
            !final(self).is_enabled(),
    {
        self.enabled = false;
    }

    #[verifier::when_used_as_spec(spec_is_enabled)]
    pub fn is_enabled(&self) -> (enabled: bool)
        ensures
            enabled == self.spec_is_enabled(),
    {
        self.enabled
    }

    /// Passes a response through the stage. No transformation is configured, so
    /// the response comes back as it was, whether the stage is enabled or not.
    pub fn intercept(&self, response: HttpResponse) -> (passed: Result<HttpResponse, FerrumError>)
        ensures
            passed == self.spec_intercept(response),
    {
        Ok(response)
    }

    /// Whether `passed` is what the stage may hand back for `response` with the
    /// given transformation: what the transformation returns while the stage
    /// is enabled, `response` itself while it is disabled.
    pub open spec fn passes_with<F: FnOnce(HttpResponse) -> Result<HttpResponse, FerrumError>>(
        &self,
        response: HttpResponse,
        transform: F,
        passed: Result<HttpResponse, FerrumError>,
    ) -> bool {
        if self.spec_is_enabled() {
            call_ensures(transform, (response,), passed)
        } else {
            passed == Ok::<HttpResponse, FerrumError>(response)
        }
    }

    /// Passes a response through the stage with a transformation of the
    /// caller's. While the stage is enabled, the transformation decides: it
    /// hands back the response, changed or not, or an error that turns it down.
    /// While the stage is disabled, the transformation is not run and the
    /// response comes back as it was.
    pub fn intercept_with<F: FnOnce(HttpResponse) -> Result<HttpResponse, FerrumError>>(
        &self,
        response: HttpResponse,
        transform: F,
    ) -> (passed: Result<HttpResponse, FerrumError>)
        requires
            self.is_enabled() ==> call_requires(transform, (response,)),
        ensures
            self.passes_with(response, transform, passed),
    {
        if self.enabled {
            transform(response)
        } else {
            Ok(response)
        }
    }

    /// What the stage reports of a response to the log: nothing while it is
    /// disabled, the response's version and status while it is enabled.
    pub fn observe(&self, response: &HttpResponse) -> (record: Option<LogRecord>)
        ensures
            record_view(record) == self.spec_observe(response),
            record is Some <==> self.is_enabled(),
    {
        if self.enabled {
            Some(
                LogRecord::Response { version: response.version, status: response.status },
            )
        } else {
            None
        }
    }
}

/// After `disable`, the stage hands every response back unchanged, equal in
/// all its fields, and reports nothing of it.
pub proof fn lemma_disabled_passes_unchanged(interceptor: ResponseInterceptor, response: HttpResponse)
    ensures
        !interceptor.spec_disable().is_enabled(),
        interceptor.spec_disable().spec_intercept(response) == Ok::<HttpResponse, FerrumError>(
            response,
        ),
        interceptor.spec_disable().spec_observe(&response) is None,
{
}

/// After `disable`, a transformation of the caller's is not run either: the
/// only thing that the stage hands back is the response itself.
pub proof fn lemma_disabled_skips_transformation<F: FnOnce(HttpResponse) -> Result<HttpResponse, FerrumError>>(
    interceptor: ResponseInterceptor,
    response: HttpResponse,
    transform: F,
    passed: Result<HttpResponse, FerrumError>,
)
    requires
        interceptor.spec_disable().passes_with(response, transform, passed),
    ensures
        passed == Ok::<HttpResponse, FerrumError>(response),
{
}

/// `enable` after `disable` brings back what a new interceptor does: the
/// response passes unchanged and its version and status are reported.
pub proof fn lemma_enable_restores_default(interceptor: ResponseInterceptor, response: HttpResponse)
    ensures
        interceptor.spec_disable().spec_enable() == ResponseInterceptor::spec_new(),
        interceptor.spec_disable().spec_enable().is_enabled(),
        interceptor.spec_disable().spec_enable().spec_intercept(response) == Ok::<
            HttpResponse,
            FerrumError,
        >(response),
        interceptor.spec_disable().spec_enable().spec_observe(&response) == Some(
            LogRecordView::Response { version: response.version, status: response.status },
        ),
{
}

} // verus!
