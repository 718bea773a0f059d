use vstd::prelude::*;
use crate::proxy::message::{record_view, HttpRequest, LogRecord, LogRecordView};
use crate::utils::error::FerrumError;

verus! {

/// The stage that every request passes once, and that can be switched off.
pub struct RequestInterceptor {
    enabled: bool,
}

impl RequestInterceptor {
    pub closed spec fn spec_is_enabled(&self) -> bool {
        self.enabled
    }

    /// The interceptor as `new` makes it.
    pub closed spec fn spec_new() -> Self {
        RequestInterceptor { enabled: true }
    }

    /// The interceptor after `enable`.
    pub closed spec fn spec_enable(self) -> Self {
        RequestInterceptor { enabled: true }
    }

    /// The interceptor after `disable`.
    pub closed spec fn spec_disable(self) -> Self {
        RequestInterceptor { enabled: false }
    }

    /// What `intercept` returns: the request itself, as no transformation is
    /// configured.
    pub open spec fn spec_intercept(&self, request: HttpRequest) -> Result<HttpRequest, FerrumError> {
        Ok(request)
    }

    /// What `observe` reports: the method and the target of the request while
    /// the stage is enabled, nothing while it is disabled.
    pub open spec fn spec_observe(&self, request: &HttpRequest) -> Option<LogRecordView> {
        if self.spec_is_enabled() {
            Some(LogRecordView::Request { method: request.method@, target: request.target@ })
        } else {
            None
        }
    }

    /// A new interceptor is enabled.
    pub fn new() -> (interceptor: Self)
        ensures
            interceptor == Self::spec_new(),
            interceptor.is_enabled(),
    {
        RequestInterceptor { enabled: true }
    }

    pub fn enable(&mut self)
        ensures
            *final(self) == old(self).spec_enable(),
            final(self).is_enabled(),
    {
        self.enabled = true;
    }

    pub fn disable(&mut self)
        ensures
            *final(self) == old(self).spec_disable(),
            !final(self).is_enabled(),
    {
        self.enabled = false;
    }

    #[verifier::when_used_as_spec(spec_is_enabled)]
    pub fn is_enabled(&self) -> (enabled: bool)
        ensures
            enabled == self.spec_is_enabled(),
    {
        self.enabled
    }

    /// Passes a request through the stage. No transformation is configured, so
    /// the request comes back as it was, whether the stage is enabled or not.
    pub fn intercept(&self, request: HttpRequest) -> (passed: Result<HttpRequest, FerrumError>)
        ensures
            passed == self.spec_intercept(request),
    {
        Ok(request)
    }

    /// Whether `passed` is what the stage may hand back for `request` with the
    /// given transformation: what the transformation returns while the stage
    /// is enabled, `request` itself while it is disabled.
    pub open spec fn passes_with<F: FnOnce(HttpRequest) -> Result<HttpRequest, FerrumError>>(
        &self,
        request: HttpRequest,
        transform: F,
        passed: Result<HttpRequest, FerrumError>,
    ) -> bool {
        if self.spec_is_enabled() {
            call_ensures(transform, (request,), passed)
        } else {
            passed == Ok::<HttpRequest, FerrumError>(request)
        }
    }

    /// Passes a request through the stage with a transformation of the
    /// caller's. While the stage is enabled, the transformation decides: it
    /// hands back the request, changed or not, or an error that turns it down.
    /// While the stage is disabled, the transformation is not run and the
    /// request comes back as it was.
    pub fn intercept_with<F: FnOnce(HttpRequest) -> Result<HttpRequest, FerrumError>>(
        &self,
        request: HttpRequest,
        transform: F,
    ) -> (passed: Result<HttpRequest, FerrumError>)
        requires
            self.is_enabled() ==> call_requires(transform, (request,)),
        ensures
            self.passes_with(request, transform, passed),
    {
        if self.enabled {
            transform(request)
        } else {
            Ok(request)
        }
    }

    /// What the stage reports of a request to the log: nothing while it is
    /// disabled, the request's method and target while it is enabled.
    pub fn observe(&self, request: &HttpRequest) -> (record: Option<LogRecord>)
        ensures
            record_view(record) == self.spec_observe(request),
            record is Some <==> self.is_enabled(),
    {
        if self.enabled {
            Some(
                LogRecord::Request {
                    method: request.method.clone(),
                    target: request.target.clone(),
                },
            )
        } else {
            None
        }
    }
}

/// After `disable`, the stage hands every request back unchanged, equal in
/// all its fields, and reports nothing of it.
pub proof fn lemma_disabled_passes_unchanged(interceptor: RequestInterceptor, request: HttpRequest)
    ensures
        !interceptor.spec_disable().is_enabled(),
        interceptor.spec_disable().spec_intercept(request) == Ok::<HttpRequest, FerrumError>(
            request,
        ),
        interceptor.spec_disable().spec_observe(&request) is None,
{
}

/// After `disable`, a transformation of the caller's is not run either: the
/// only thing that the stage hands back is the request itself.
pub proof fn lemma_disabled_skips_transformation<F: FnOnce(HttpRequest) -> Result<HttpRequest, FerrumError>>(
    interceptor: RequestInterceptor,
    request: HttpRequest,
    transform: F,
    passed: Result<HttpRequest, FerrumError>,
)
    requires
        interceptor.spec_disable().passes_with(request, transform, passed),
    ensures
        passed == Ok::<HttpRequest, FerrumError>(request),
{
}

/// `enable` after `disable` brings back what a new interceptor does: the
/// request passes unchanged and its method and target are reported.
pub proof fn lemma_enable_restores_default(interceptor: RequestInterceptor, request: HttpRequest)
    ensures
        interceptor.spec_disable().spec_enable() == RequestInterceptor::spec_new(),
        interceptor.spec_disable().spec_enable().is_enabled(),
        interceptor.spec_disable().spec_enable().spec_intercept(request) == Ok::<
            HttpRequest,
            FerrumError,
        >(request),
        interceptor.spec_disable().spec_enable().spec_observe(&request) == Some(
            LogRecordView::Request { method: request.method@, target: request.target@ },
        ),
{
}

} // verus!
