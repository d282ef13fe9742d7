//! Services, as far as this library reads and changes them.

use crate::views::{view_of, views};
use vstd::prelude::*;

verus! {

/// An environment entry's reference to one version of a secret.
#[derive(Clone, Debug, PartialEq, Eq)]
pub struct EnvSecretRef {
    pub secret: String,
    pub version: String,
}

/// What an [`EnvSecretRef`] holds.
pub struct EnvSecretRefView {
    pub secret: Seq<char>,
    pub version: Seq<char>,
}

impl View for EnvSecretRef {
    type V = EnvSecretRefView;

    open spec fn view(&self) -> EnvSecretRefView {
        EnvSecretRefView { secret: self.secret@, version: self.version@ }
    }
}

/// One environment entry of a container. Only an entry whose value comes
/// from a secret carries a reference.
#[derive(Clone, Debug, PartialEq, Eq)]
pub struct EnvVar {
    pub name: String,
    pub secret_ref: Option<EnvSecretRef>,
}

/// What an [`EnvVar`] holds.
pub struct EnvVarView {
    pub name: Seq<char>,
    pub secret_ref: Option<EnvSecretRefView>,
}

impl View for EnvVar {
    type V = EnvVarView;

    open spec fn view(&self) -> EnvVarView {
        EnvVarView {
            name: self.name@,
            secret_ref: view_of(self.secret_ref),
        }
    }
}

/// A container of a revision template, by its environment.
#[derive(Clone, Debug, PartialEq, Eq)]
pub struct Container {
    pub env: Vec<EnvVar>,
}

/// What a [`Container`] holds.
pub struct ContainerView {
    pub env: Seq<EnvVarView>,
}

impl View for Container {
    type V = ContainerView;

    open spec fn view(&self) -> ContainerView {
        ContainerView { env: views(self.env@) }
    }
}

/// One file of a secret volume, and the version of the secret that it shows.
#[derive(Clone, Debug, PartialEq, Eq)]
pub struct VolumeItem {
    pub path: String,
    pub version: String,
}

/// What a [`VolumeItem`] holds.
pub struct VolumeItemView {
    pub path: Seq<char>,
    pub version: Seq<char>,
}

impl View for VolumeItem {
    type V = VolumeItemView;

    open spec fn view(&self) -> VolumeItemView {
        VolumeItemView { path: self.path@, version: self.version@ }
    }
}

/// A volume's reference to a secret. The secret is written either as a bare
/// name or as a path that ends in the name. Without items the volume is a
/// default mount; with items, each names its own version.
#[derive(Clone, Debug, PartialEq, Eq)]
pub struct VolumeSecretRef {
    pub secret: String,
    pub items: Vec<VolumeItem>,
}

/// What a [`VolumeSecretRef`] holds.
pub struct VolumeSecretRefView {
    pub secret: Seq<char>,
    pub items: Seq<VolumeItemView>,
}

impl View for VolumeSecretRef {
    type V = VolumeSecretRefView;

    open spec fn view(&self) -> VolumeSecretRefView {
        VolumeSecretRefView { secret: self.secret@, items: views(self.items@) }
    }
}

/// A volume of a revision template. Only a volume backed by a secret
/// carries a reference.
#[derive(Clone, Debug, PartialEq, Eq)]
pub struct Volume {
    pub name: String,
    pub secret: Option<VolumeSecretRef>,
}

/// What a [`Volume`] holds.
pub struct VolumeView {
    pub name: Seq<char>,
    pub secret: Option<VolumeSecretRefView>,
}

impl View for Volume {
    type V = VolumeView;

    open spec fn view(&self) -> VolumeView {
        VolumeView {
            name: self.name@,
            secret: view_of(self.secret),
        }
    }
}

/// What a service deploys. The revision name is unique to each revision:
/// a template that is submitted under a name that was not used before is
/// deployed as a new revision.
#[derive(Clone, Debug, PartialEq, Eq)]
pub struct RevisionTemplate {
    pub revision: String,
    pub containers: Vec<Container>,
    pub volumes: Vec<Volume>,
}

/// What a [`RevisionTemplate`] holds.
pub struct RevisionTemplateView {
    pub revision: Seq<char>,
    pub containers: Seq<ContainerView>,
    pub volumes: Seq<VolumeView>,
}

impl View for RevisionTemplate {
    type V = RevisionTemplateView;

    open spec fn view(&self) -> RevisionTemplateView {
        RevisionTemplateView {
            revision: self.revision@,
            containers: views(self.containers@),
            volumes: views(self.volumes@),
        }
    }
}

/// A service as far as this library reads and changes it. A service is
/// identified by its name.
#[derive(Clone, Debug, PartialEq, Eq)]
pub struct ServiceSpec {
    pub name: String,
    pub template: Option<RevisionTemplate>,
}

/// What a [`ServiceSpec`] holds.
pub struct ServiceSpecView {
    pub name: Seq<char>,
    pub template: Option<RevisionTemplateView>,
}

impl View for ServiceSpec {
    type V = ServiceSpecView;

    open spec fn view(&self) -> ServiceSpecView {
        ServiceSpecView {
            name: self.name@,
            template: view_of(self.template),
        }
    }
}

} // verus!
