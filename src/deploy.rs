//! The deployment pipeline as a sequence of verified decisions. A session
//! is begun from the catalog; the engine's build, create, start and inspect
//! calls are made by the caller in that order, each with what the session
//! hands out, and each reply is given back to the session, which decides
//! whether the pipeline goes on. Only an inspected container is recorded.
use vstd::prelude::*;

use crate::catalog::{templates_by_id, TemplateCatalog};
use crate::error::OrchestratorError;
use crate::host_config::{create_request, limits_fit, request_for, ContainerCreateRequest};
use crate::image_build::{
    build_request, failure_of, image_tag, image_tag_of, logs_after, recipe_archive,
    recipe_file_name, BuildProgress, RECIPE_FILE_MODE, BuildRequest, BuildStreamItem,
};
use crate::inspect::{container_info_from_inspect, inspect_info, InspectReply};
use crate::model::{
    copy_strings, strings_view, ContainerInfoView, ContainerTemplate, DeploymentResult, TemplateView,
};
use crate::naming::{
    chosen_name, deployment_name, fresh_id, lemma_distinct_templates_get_distinct_names,
    synthesized_name,
};
use crate::registry::{lemma_independent_records, DeploymentRegistry};

verus! {

/// Where a deployment stands.
#[derive(Clone, Copy, Debug, PartialEq, Eq, Structural)]
pub enum DeployStage {
    /// The image is being built.
    Building,
    /// The image is built; the container is to be created.
    Creating,
    /// The container is created; it is to be started.
    Starting,
    /// The container is started; it is to be inspected and recorded.
    Inspecting,
    /// The deployment is recorded.
    Deployed,
    /// A stage failed; nothing more happens.
    Failed,
}

pub struct DeploySession {
    template: ContainerTemplate,
    deployment_name: String,
    image_tag: String,
    stage: DeployStage,
    progress: BuildProgress,
    container_id: Option<String>,
}

pub ghost struct DeploySessionView {
    pub template: TemplateView,
    pub deployment_name: Seq<char>,
    pub image_tag: Seq<char>,
    pub stage: DeployStage,
    pub logs: Seq<Seq<char>>,
    pub container_id: Option<Seq<char>>,
}

impl View for DeploySession {
    type V = DeploySessionView;

    closed spec fn view(&self) -> DeploySessionView {
        DeploySessionView {
            template: self.template@,
            deployment_name: self.deployment_name@,
            image_tag: self.image_tag@,
            stage: self.stage,
            logs: self.progress@,
            container_id: match self.container_id {
                Some(id) => Some(id@),
                None => None,
            },
        }
    }
}

/// The session holds the non-empty id of a container.
pub open spec fn has_container(s: DeploySessionView) -> bool {
    s.container_id matches Some(id) && id.len() > 0
}

impl DeploySession {
    /// A session past the create stage holds the non-empty id of its
    /// container, and one before it holds none.
    pub open spec fn wf(&self) -> bool {
        match self@.stage {
            DeployStage::Building | DeployStage::Creating => self@.container_id is None,
            DeployStage::Starting | DeployStage::Inspecting | DeployStage::Deployed => has_container(
                self@,
            ),
            DeployStage::Failed => true,
        }
    }

    /// The template being deployed.
    pub fn template(&self) -> (r: &ContainerTemplate)
        ensures
            r@ == self@.template,
    {
        &self.template
    }

    /// The name the deployment goes by.
    pub fn deployment_name(&self) -> (r: &String)
        ensures
            r@ == self@.deployment_name,
    {
        &self.deployment_name
    }

    /// The tag of the image built for it.
    pub fn image_tag(&self) -> (r: &String)
        ensures
            r@ == self@.image_tag,
    {
        &self.image_tag
    }

    /// Where the deployment stands.
    pub fn stage(&self) -> (r: DeployStage)
        ensures
            r == self@.stage,
    {
        self.stage
    }

    /// What the engine's build call is to be given: the template's recipe,
    /// packaged under the recipe file's name, with the session's tag.
    pub fn build_request(&self) -> (r: Result<BuildRequest, OrchestratorError>)
        requires
            self@.stage == DeployStage::Building,
        ensures
            r matches Ok(req) && {
                &&& req.context@ == recipe_archive(
                    recipe_file_name(),
                    RECIPE_FILE_MODE,
                    self@.template.dockerfile,
                )
                &&& req.tag@ == self@.image_tag
                &&& req.dockerfile@ == recipe_file_name()
                &&& req.rm && req.forcerm && req.pull
            },
    {
        build_request(&self.template, self.image_tag.as_str())
    }

    /// Takes one item of the build stream: its log line is kept, trimmed,
    /// and an error fails the session with a build failure that carries
    /// every line kept so far.
    pub fn on_build_item(&mut self, item: BuildStreamItem) -> (r: Result<(), OrchestratorError>)
        requires
            old(self)@.stage == DeployStage::Building,
            old(self).wf(),
        ensures
            final(self).wf(),
            final(self)@ == (DeploySessionView {
                stage: final(self)@.stage,
                logs: logs_after(old(self)@.logs, item),
                ..old(self)@
            }),
            match failure_of(item) {
                None => r is Ok && final(self)@.stage == DeployStage::Building,
                Some(m) => final(self)@.stage == DeployStage::Failed && (r matches Err(
                    OrchestratorError::BuildFailure { message, logs },
                ) && message@ == m && strings_view(logs@) == final(self)@.logs),
            },
    {
        let r = self.progress.on_item(item);
        if r.is_err() {
            self.stage = DeployStage::Failed;
        }
        r
    }

    /// Ends the build stage once the build stream ended without an error,
    /// and hands out what the engine's create call is to be given: the
    /// template's configuration for a container named after the deployment,
    /// made from the built image. Limits that do not fit the engine fail the
    /// session.
    pub fn finish_build(&mut self) -> (r: Result<ContainerCreateRequest, OrchestratorError>)
        requires
            old(self)@.stage == DeployStage::Building,
            old(self).wf(),
        ensures
            final(self).wf(),
            final(self)@ == (DeploySessionView {
                stage: final(self)@.stage,
                ..old(self)@
            }),
            limits_fit(old(self)@.template.resource_limits) ==> {
                &&& final(self)@.stage == DeployStage::Creating
                &&& r matches Ok(req) && request_for(
                    req,
                    old(self)@.template,
                    old(self)@.deployment_name,
                    old(self)@.image_tag,
                )
            },
            !limits_fit(old(self)@.template.resource_limits) ==> {
                &&& final(self)@.stage == DeployStage::Failed
                &&& r matches Err(OrchestratorError::ContainerCreateFailure(_))
            },
    {
        let r = create_request(&self.template, self.deployment_name.as_str(), self.image_tag.as_str());
        if r.is_ok() {
            self.stage = DeployStage::Creating;
        } else {
            self.stage = DeployStage::Failed;
        }
        r
    }

    /// Takes the reply of the engine's create call. A created container
    /// moves the session on, and its id is handed out to be started; a
    /// failure, or an empty id, fails the session.
    pub fn on_created(&mut self, reply: Result<String, String>) -> (r: Result<String, OrchestratorError>)
        requires
            old(self)@.stage == DeployStage::Creating,
            old(self).wf(),
        ensures
            final(self).wf(),
            final(self)@ == (DeploySessionView {
                stage: final(self)@.stage,
                container_id: final(self)@.container_id,
                ..old(self)@
            }),
            match reply {
                Ok(id) => if id@.len() > 0 {
                    &&& final(self)@.stage == DeployStage::Starting
                    &&& final(self)@.container_id == Some(id@)
                    &&& r matches Ok(target) && target@ == id@
                } else {
                    &&& final(self)@.stage == DeployStage::Failed
                    &&& r matches Err(OrchestratorError::ContainerCreateFailure(_))
                },
                Err(m) => {
                    &&& final(self)@.stage == DeployStage::Failed
                    &&& r matches Err(OrchestratorError::ContainerCreateFailure(e)) && e@ == m@
                },
            },
    {
        match reply {
            Ok(id) => {
                if id.unicode_len() > 0 {
                    let target = id.clone();
                    self.container_id = Some(id);
                    self.stage = DeployStage::Starting;
                    Ok(target)
                } else {
                    self.stage = DeployStage::Failed;
                    Err(
                        OrchestratorError::ContainerCreateFailure(
                            String::from_str("the engine returned an empty container id"),
                        ),
                    )
                }
            },
            Err(m) => {
                self.stage = DeployStage::Failed;
                Err(OrchestratorError::ContainerCreateFailure(m))
            },
        }
    }

    /// Takes the reply of the engine's start call. A started container
    /// moves the session on, and its id is handed out to be inspected; a
    /// failure fails the session and leaves the container where it is.
    pub fn on_started(&mut self, reply: Result<(), String>) -> (r: Result<String, OrchestratorError>)
        requires
            old(self)@.stage == DeployStage::Starting,
            old(self).wf(),
        ensures
            final(self).wf(),
            final(self)@ == (DeploySessionView {
                stage: final(self)@.stage,
                ..old(self)@
            }),
            match reply {
                Ok(_) => {
                    &&& final(self)@.stage == DeployStage::Inspecting
                    &&& r matches Ok(target) && Some(target@) == old(self)@.container_id
                },
                Err(m) => {
                    &&& final(self)@.stage == DeployStage::Failed
                    &&& r matches Err(OrchestratorError::ContainerStartFailure(e)) && e@ == m@
                },
            },
    {
        match reply {
            Ok(_) => {
                self.stage = DeployStage::Inspecting;
                match &self.container_id {
                    Some(id) => Ok(id.clone()),
                    None => {
                        assert(false);
                        Err(OrchestratorError::ContainerStartFailure(String::new()))
                    },
                }
            },
            Err(m) => {
                self.stage = DeployStage::Failed;
                Err(OrchestratorError::ContainerStartFailure(m))
            },
        }
    }

    /// Takes the reply of the engine's inspect call. A described container
    /// is recorded in `registry` under the deployment name, and the result
    /// reports it with the build logs and `elapsed_ms`; a failure fails the
    /// session and leaves `registry` as it was.
    pub fn on_inspected(
        &mut self,
        registry: &mut DeploymentRegistry,
        reply: Result<InspectReply, String>,
        elapsed_ms: u64,
    ) -> (r: Result<DeploymentResult, OrchestratorError>)
        requires
            old(self)@.stage == DeployStage::Inspecting,
            old(self).wf(),
            old(registry).wf(),
        ensures
            final(self).wf(),
            final(registry).wf(),
            final(self)@ == (DeploySessionView {
                stage: final(self)@.stage,
                ..old(self)@
            }),
            match reply {
                Ok(description) => {
                    let id = old(self)@.container_id->Some_0;
                    let info = inspect_info(id, description);
                    &&& final(self)@.stage == DeployStage::Deployed
                    &&& final(registry)@ == old(registry)@.insert(old(self)@.deployment_name, info)
                    &&& r matches Ok(res) && {
                        &&& res.success
                        &&& res.container_id matches Some(c) && c@ == id && c@.len() > 0
                        &&& res.container_name@ == old(self)@.deployment_name
                        &&& res.image_id matches Some(t) && t@ == old(self)@.image_tag
                        &&& strings_view(res.ports@) == info.ports
                        &&& strings_view(res.build_logs@) == old(self)@.logs
                        &&& res.deployment_time_ms == elapsed_ms
                    }
                },
                Err(m) => {
                    &&& final(self)@.stage == DeployStage::Failed
                    &&& final(registry)@ == old(registry)@
                    &&& r matches Err(OrchestratorError::ContainerInspectFailure(e)) && e@ == m@
                },
            },
    {
        match reply {
            Ok(description) => {
                let id = match &self.container_id {
                    Some(id) => id.clone(),
                    None => {
                        assert(false);
                        String::new()
                    },
                };
                let info = container_info_from_inspect(id.as_str(), &description);
                let ports = copy_strings(&info.ports);
                registry.insert(self.deployment_name.clone(), info);
                self.stage = DeployStage::Deployed;
                Ok(
                    DeploymentResult {
                        success: true,
                        container_id: Some(id),
                        container_name: self.deployment_name.clone(),
                        image_id: Some(self.image_tag.clone()),
                        ports,
                        message: String::from_str("Container deployed successfully"),
                        build_logs: self.progress.logs_copy(),
                        deployment_time_ms: elapsed_ms,
                    },
                )
            },
            Err(m) => {
                self.stage = DeployStage::Failed;
                Err(OrchestratorError::ContainerInspectFailure(m))
            },
        }
    }
}

/// Begins a deployment of `template_id` under `container_name`, or under a
/// name synthesized from `fresh` when none is given. An unknown template id
/// fails at once, before any engine call, with nothing changed.
pub fn begin_deploy_with(
    catalog: &TemplateCatalog,
    template_id: &str,
    container_name: Option<String>,
    fresh: u128,
) -> (r: Result<DeploySession, OrchestratorError>)
    requires
        catalog.wf(),
    ensures
        !templates_by_id(catalog@).contains_key(template_id@) ==> (r matches Err(
            OrchestratorError::TemplateNotFound(id),
        ) && id@ == template_id@),
        templates_by_id(catalog@).contains_key(template_id@) ==> (r matches Ok(s) && {
            &&& s.wf()
            &&& s@.template == templates_by_id(catalog@)[template_id@]
            &&& s@.deployment_name == chosen_name(
                template_id@,
                match container_name {
                    Some(n) => Some(n@),
                    None => None,
                },
                fresh,
            )
            &&& s@.image_tag == image_tag_of(template_id@)
            &&& s@.stage == DeployStage::Building
            &&& s@.logs == Seq::<Seq<char>>::empty()
            &&& s@.container_id is None
        }),
{
    match catalog.get(template_id) {
        None => Err(OrchestratorError::TemplateNotFound(String::from_str(template_id))),
        Some(template) => Ok(
            DeploySession {
                template,
                deployment_name: deployment_name(template_id, container_name, fresh),
                image_tag: image_tag(template_id),
                stage: DeployStage::Building,
                progress: BuildProgress::new(),
                container_id: None,
            },
        ),
    }
}

/// Begins a deployment as `begin_deploy_with` does, drawing a fresh random
/// identifier for the name when none is given.
pub fn begin_deploy(catalog: &TemplateCatalog, template_id: &str, container_name: Option<String>) -> (r:
    Result<DeploySession, OrchestratorError>)
    requires
        catalog.wf(),
    ensures
        !templates_by_id(catalog@).contains_key(template_id@) ==> (r matches Err(
            OrchestratorError::TemplateNotFound(id),
        ) && id@ == template_id@),
        templates_by_id(catalog@).contains_key(template_id@) ==> (r matches Ok(s) && {
            &&& s.wf()
            &&& s@.template == templates_by_id(catalog@)[template_id@]
            &&& (container_name matches Some(n) ==> s@.deployment_name == n@)
            &&& (container_name is None ==> exists|f: u128|
                s@.deployment_name == synthesized_name(template_id@, f))
            &&& s@.image_tag == image_tag_of(template_id@)
            &&& s@.stage == DeployStage::Building
            &&& s@.logs == Seq::<Seq<char>>::empty()
            &&& s@.container_id is None
        }),
{
    let fresh = fresh_id();
    begin_deploy_with(catalog, template_id, container_name, fresh)
}

/// Unnamed deployments of two different templates are independent: their
/// names differ, and recording both keeps both, whichever is recorded
/// first.
pub proof fn lemma_deploys_of_distinct_templates_are_independent(
    registry: Map<Seq<char>, ContainerInfoView>,
    id1: Seq<char>,
    fresh1: u128,
    info1: ContainerInfoView,
    id2: Seq<char>,
    fresh2: u128,
    info2: ContainerInfoView,
)
    requires
        id1 != id2,
    ensures
        ({
            let n1 = synthesized_name(id1, fresh1);
            let n2 = synthesized_name(id2, fresh2);
            &&& n1 != n2
            &&& registry.insert(n1, info1).insert(n2, info2) == registry.insert(n2, info2).insert(
                n1,
                info1,
            )
            &&& registry.insert(n1, info1).insert(n2, info2)[n1] == info1
            &&& registry.insert(n1, info1).insert(n2, info2)[n2] == info2
        }),
{
    let n1 = synthesized_name(id1, fresh1);
    let n2 = synthesized_name(id2, fresh2);
    lemma_distinct_templates_get_distinct_names(id1, id2, fresh1, fresh2);
    lemma_independent_records(registry, n1, info1, n2, info2);
}

/// Every item of a build stream lets the build go on.
pub open spec fn build_succeeds(items: Seq<BuildStreamItem>) -> bool {
    forall|i: int| 0 <= i < items.len() ==> failure_of(#[trigger] items[i]) is None
}

/// The log lines a whole build stream leaves.
pub open spec fn stream_logs(items: Seq<BuildStreamItem>) -> Seq<Seq<char>>
    decreases items.len(),
{
    if items.len() == 0 {
        Seq::empty()
    } else {
        logs_after(stream_logs(items.drop_last()), items.last())
    }
}

/// The id of a created container, when the engine gave a non-empty one.
pub open spec fn created_id(created: Result<String, String>) -> Option<Seq<char>> {
    match created {
        Ok(id) => if id@.len() > 0 {
            Some(id@)
        } else {
            None
        },
        Err(_) => None,
    }
}

/// A call made to the engine during a deployment.
#[derive(Clone, Copy, Debug, PartialEq, Eq, Structural)]
pub enum EngineCall {
    Build,
    Create,
    Start,
    Inspect,
}

/// The engine's replies to the calls of one deployment: the items of the
/// build stream, and the replies to create, start and inspect.
pub struct EngineReplies {
    pub build_items: Vec<BuildStreamItem>,
    pub created: Result<String, String>,
    pub started: Result<(), String>,
    pub inspected: Result<InspectReply, String>,
}

/// What a deployment came to, and the engine calls it made, in order.
pub struct DeployRun {
    pub outcome: Result<DeploymentResult, OrchestratorError>,
    pub calls: Vec<EngineCall>,
}

/// A whole deployment of `template_id`, given the engine's replies: the
/// session's steps in order, each engine call made only once every earlier
/// stage succeeded, and the registry written only by a deployment that
/// succeeded in full.
#[verifier::loop_isolation(false)]
pub fn deploy_with_replies(
    catalog: &TemplateCatalog,
    registry: &mut DeploymentRegistry,
    template_id: &str,
    container_name: Option<String>,
    fresh: u128,
    replies: EngineReplies,
    elapsed_ms: u64,
) -> (r: DeployRun)
    requires
        catalog.wf(),
        old(registry).wf(),
    ensures
        final(registry).wf(),
        ({
            let items = replies.build_items@;
            let found = templates_by_id(catalog@).contains_key(template_id@);
            let template = templates_by_id(catalog@)[template_id@];
            let name = chosen_name(
                template_id@,
                match container_name {
                    Some(n) => Some(n@),
                    None => None,
                },
                fresh,
            );
            if !found {
                &&& r.outcome matches Err(OrchestratorError::TemplateNotFound(id)) && id@
                    == template_id@
                &&& r.calls@ == Seq::<EngineCall>::empty()
                &&& final(registry)@ == old(registry)@
            } else if !build_succeeds(items) {
                &&& r.outcome matches Err(OrchestratorError::BuildFailure { .. })
                &&& r.calls@ == seq![EngineCall::Build]
                &&& final(registry)@ == old(registry)@
            } else if !limits_fit(template.resource_limits) {
                &&& r.outcome matches Err(OrchestratorError::ContainerCreateFailure(_))
                &&& r.calls@ == seq![EngineCall::Build]
                &&& final(registry)@ == old(registry)@
            } else if created_id(replies.created) is None {
                &&& r.outcome matches Err(OrchestratorError::ContainerCreateFailure(_))
                &&& r.calls@ == seq![EngineCall::Build, EngineCall::Create]
                &&& final(registry)@ == old(registry)@
            } else if replies.started is Err {
                &&& r.outcome matches Err(OrchestratorError::ContainerStartFailure(_))
                &&& r.calls@ == seq![EngineCall::Build, EngineCall::Create, EngineCall::Start]
                &&& final(registry)@ == old(registry)@
            } else if replies.inspected is Err {
                &&& r.outcome matches Err(OrchestratorError::ContainerInspectFailure(_))
                &&& r.calls@ == seq![
                    EngineCall::Build,
                    EngineCall::Create,
                    EngineCall::Start,
                    EngineCall::Inspect,
                ]
                &&& final(registry)@ == old(registry)@
            } else {
                let id = created_id(replies.created)->Some_0;
                let info = inspect_info(id, replies.inspected->Ok_0);
                &&& r.calls@ == seq![
                    EngineCall::Build,
                    EngineCall::Create,
                    EngineCall::Start,
                    EngineCall::Inspect,
                ]
                &&& final(registry)@ == old(registry)@.insert(name, info)
                &&& r.outcome matches Ok(res) && {
                    &&& res.success
                    &&& res.container_name@ == name
                    &&& res.container_id matches Some(c) && c@ == id
                    &&& res.image_id matches Some(t) && t@ == image_tag_of(template_id@)
                    &&& strings_view(res.ports@) == info.ports
                    &&& strings_view(res.build_logs@) == stream_logs(items)
                    &&& res.deployment_time_ms == elapsed_ms
                }
            }
        }),
{
    let mut calls: Vec<EngineCall> = Vec::new();
    let mut session = match begin_deploy_with(catalog, template_id, container_name, fresh) {
        Ok(s) => s,
        Err(e) => {
            return DeployRun { outcome: Err(e), calls };
        },
    };
    let EngineReplies { build_items, created, started, inspected } = replies;
    calls.push(EngineCall::Build);
    let ghost all = build_items@;
    let ghost start = session@;
    let mut items = build_items;
    let n = items.len();
    let mut k: usize = 0;
    while items.len() > 0
        invariant
            session.wf(),
            registry.wf(),
            registry@ == old(registry)@,
            all.len() == n,
            k <= all.len(),
            items@ == all.subrange(k as int, all.len() as int),
            session@ == (DeploySessionView { logs: session@.logs, ..start }),
            session@.logs == stream_logs(all.subrange(0, k as int)),
            forall|j: int| 0 <= j < k ==> failure_of(#[trigger] all[j]) is None,
            calls@ == seq![EngineCall::Build],
            start.stage == DeployStage::Building,
        decreases items.len(),
    {
        let item = items.remove(0);
        assert(item == all[k as int]);
        assert(all.subrange(0, k + 1).drop_last() =~= all.subrange(0, k as int));
        match session.on_build_item(item) {
            Ok(()) => {},
            Err(e) => {
                assert(failure_of(all[k as int]) is Some);
                assert(!build_succeeds(all));
                return DeployRun { outcome: Err(e), calls };
            },
        }
        k = k + 1;
        assert(items@ =~= all.subrange(k as int, all.len() as int));
    }
    assert(all.subrange(0, k as int) =~= all);
    match session.finish_build() {
        Ok(_) => {},
        Err(e) => {
            return DeployRun { outcome: Err(e), calls };
        },
    }
    calls.push(EngineCall::Create);
    match session.on_created(created) {
        Ok(_) => {},
        Err(e) => {
            return DeployRun { outcome: Err(e), calls };
        },
    }
    calls.push(EngineCall::Start);
    match session.on_started(started) {
        Ok(_) => {},
        Err(e) => {
            return DeployRun { outcome: Err(e), calls };
        },
    }
    calls.push(EngineCall::Inspect);
    let outcome = session.on_inspected(registry, inspected, elapsed_ms);
    DeployRun { outcome, calls }
}

} // verus!
