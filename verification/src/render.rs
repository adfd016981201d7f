use vstd::prelude::*;

use crate::catalog::Classifier;

verus! {

impl Classifier {
    /// Render this classifier as its canonical tag string.
    pub fn as_str(&self) -> (r: &'static str)
        ensures
            r@ == self.tag(),
    {
        self.as_str_block_a()
    }

    /// One stretch of the rendering table; later ranks fall through.
    fn as_str_block_a(&self) -> (r: &'static str)
        ensures
            r@ == self.tag(),
    {
        match self {
            Classifier::DevelopmentStatus__1Planning => "Development Status :: 1 - Planning",
            Classifier::DevelopmentStatus__2PreAlpha => "Development Status :: 2 - Pre-Alpha",
            Classifier::DevelopmentStatus__3Alpha => "Development Status :: 3 - Alpha",
            Classifier::DevelopmentStatus__4Beta => "Development Status :: 4 - Beta",
            Classifier::DevelopmentStatus__5ProductionStable => "Development Status :: 5 - Production/Stable",
            Classifier::DevelopmentStatus__6Mature => "Development Status :: 6 - Mature",
            Classifier::DevelopmentStatus__7Inactive => "Development Status :: 7 - Inactive",
            Classifier::Environment__Console => "Environment :: Console",
            Classifier::Environment__Console__Curses => "Environment :: Console :: Curses",
            Classifier::Environment__Console__Framebuffer => "Environment :: Console :: Framebuffer",
            Classifier::Environment__Console__Newt => "Environment :: Console :: Newt",
            Classifier::Environment__Console__svgalib => "Environment :: Console :: svgalib",
            Classifier::Environment__GPU => "Environment :: GPU",
            Classifier::Environment__GPU__NVIDIACUDA => "Environment :: GPU :: NVIDIA CUDA",
            Classifier::Environment__GPU__NVIDIACUDA__1_0 => "Environment :: GPU :: NVIDIA CUDA :: 1.0",
            Classifier::Environment__GPU__NVIDIACUDA__1_1 => "Environment :: GPU :: NVIDIA CUDA :: 1.1",
            Classifier::Environment__GPU__NVIDIACUDA__10_0 => "Environment :: GPU :: NVIDIA CUDA :: 10.0",
            Classifier::Environment__GPU__NVIDIACUDA__10_1 => "Environment :: GPU :: NVIDIA CUDA :: 10.1",
            Classifier::Environment__GPU__NVIDIACUDA__10_2 => "Environment :: GPU :: NVIDIA CUDA :: 10.2",
            Classifier::Environment__GPU__NVIDIACUDA__11 => "Environment :: GPU :: NVIDIA CUDA :: 11",
            Classifier::Environment__GPU__NVIDIACUDA__11_0 => "Environment :: GPU :: NVIDIA CUDA :: 11.0",
            Classifier::Environment__GPU__NVIDIACUDA__11_1 => "Environment :: GPU :: NVIDIA CUDA :: 11.1",
            Classifier::Environment__GPU__NVIDIACUDA__11_2 => "Environment :: GPU :: NVIDIA CUDA :: 11.2",
            Classifier::Environment__GPU__NVIDIACUDA__11_3 => "Environment :: GPU :: NVIDIA CUDA :: 11.3",
            Classifier::Environment__GPU__NVIDIACUDA__11_4 => "Environment :: GPU :: NVIDIA CUDA :: 11.4",
            Classifier::Environment__GPU__NVIDIACUDA__11_5 => "Environment :: GPU :: NVIDIA CUDA :: 11.5",
            Classifier::Environment__GPU__NVIDIACUDA__11_6 => "Environment :: GPU :: NVIDIA CUDA :: 11.6",
            Classifier::Environment__GPU__NVIDIACUDA__11_7 => "Environment :: GPU :: NVIDIA CUDA :: 11.7",
            Classifier::Environment__GPU__NVIDIACUDA__11_8 => "Environment :: GPU :: NVIDIA CUDA :: 11.8",
            Classifier::Environment__GPU__NVIDIACUDA__12 => "Environment :: GPU :: NVIDIA CUDA :: 12",
            Classifier::Environment__GPU__NVIDIACUDA__12__12_0 => "Environment :: GPU :: NVIDIA CUDA :: 12 :: 12.0",
            Classifier::Environment__GPU__NVIDIACUDA__12__12_1 => "Environment :: GPU :: NVIDIA CUDA :: 12 :: 12.1",
            Classifier::Environment__GPU__NVIDIACUDA__12__12_2 => "Environment :: GPU :: NVIDIA CUDA :: 12 :: 12.2",
            Classifier::Environment__GPU__NVIDIACUDA__12__12_3 => "Environment :: GPU :: NVIDIA CUDA :: 12 :: 12.3",
            Classifier::Environment__GPU__NVIDIACUDA__12__12_4 => "Environment :: GPU :: NVIDIA CUDA :: 12 :: 12.4",
            Classifier::Environment__GPU__NVIDIACUDA__12__12_5 => "Environment :: GPU :: NVIDIA CUDA :: 12 :: 12.5",
            Classifier::Environment__GPU__NVIDIACUDA__2_0 => "Environment :: GPU :: NVIDIA CUDA :: 2.0",
            Classifier::Environment__GPU__NVIDIACUDA__2_1 => "Environment :: GPU :: NVIDIA CUDA :: 2.1",
            Classifier::Environment__GPU__NVIDIACUDA__2_2 => "Environment :: GPU :: NVIDIA CUDA :: 2.2",
            Classifier::Environment__GPU__NVIDIACUDA__2_3 => "Environment :: GPU :: NVIDIA CUDA :: 2.3",
            Classifier::Environment__GPU__NVIDIACUDA__3_0 => "Environment :: GPU :: NVIDIA CUDA :: 3.0",
            Classifier::Environment__GPU__NVIDIACUDA__3_1 => "Environment :: GPU :: NVIDIA CUDA :: 3.1",
            Classifier::Environment__GPU__NVIDIACUDA__3_2 => "Environment :: GPU :: NVIDIA CUDA :: 3.2",
            Classifier::Environment__GPU__NVIDIACUDA__4_0 => "Environment :: GPU :: NVIDIA CUDA :: 4.0",
            Classifier::Environment__GPU__NVIDIACUDA__4_1 => "Environment :: GPU :: NVIDIA CUDA :: 4.1",
            Classifier::Environment__GPU__NVIDIACUDA__4_2 => "Environment :: GPU :: NVIDIA CUDA :: 4.2",
            Classifier::Environment__GPU__NVIDIACUDA__5_0 => "Environment :: GPU :: NVIDIA CUDA :: 5.0",
            Classifier::Environment__GPU__NVIDIACUDA__5_5 => "Environment :: GPU :: NVIDIA CUDA :: 5.5",
            Classifier::Environment__GPU__NVIDIACUDA__6_0 => "Environment :: GPU :: NVIDIA CUDA :: 6.0",
            Classifier::Environment__GPU__NVIDIACUDA__6_5 => "Environment :: GPU :: NVIDIA CUDA :: 6.5",
            Classifier::Environment__GPU__NVIDIACUDA__7_0 => "Environment :: GPU :: NVIDIA CUDA :: 7.0",
            Classifier::Environment__GPU__NVIDIACUDA__7_5 => "Environment :: GPU :: NVIDIA CUDA :: 7.5",
            Classifier::Environment__GPU__NVIDIACUDA__8_0 => "Environment :: GPU :: NVIDIA CUDA :: 8.0",
            Classifier::Environment__GPU__NVIDIACUDA__9_0 => "Environment :: GPU :: NVIDIA CUDA :: 9.0",
            Classifier::Environment__GPU__NVIDIACUDA__9_1 => "Environment :: GPU :: NVIDIA CUDA :: 9.1",
            Classifier::Environment__GPU__NVIDIACUDA__9_2 => "Environment :: GPU :: NVIDIA CUDA :: 9.2",
            Classifier::Environment__HandheldsPDAs => "Environment :: Handhelds/PDA's",
            Classifier::Environment__MacOSX => "Environment :: MacOS X",
            Classifier::Environment__MacOSX__Aqua => "Environment :: MacOS X :: Aqua",
            Classifier::Environment__MacOSX__Carbon => "Environment :: MacOS X :: Carbon",
            Classifier::Environment__MacOSX__Cocoa => "Environment :: MacOS X :: Cocoa",
            Classifier::Environment__NoInputOutputDaemon => "Environment :: No Input/Output (Daemon)",
            Classifier::Environment__OpenStack => "Environment :: OpenStack",
            Classifier::Environment__OtherEnvironment => "Environment :: Other Environment",
            Classifier::Environment__Plugins => "Environment :: Plugins",
            Classifier::Environment__WebEnvironment => "Environment :: Web Environment",
            Classifier::Environment__WebEnvironment__Buffet => "Environment :: Web Environment :: Buffet",
            Classifier::Environment__WebEnvironment__Mozilla => "Environment :: Web Environment :: Mozilla",
            Classifier::Environment__WebEnvironment__ToscaWidgets => "Environment :: Web Environment :: ToscaWidgets",
            Classifier::Environment__WebAssembly => "Environment :: WebAssembly",
            Classifier::Environment__WebAssembly__Emscripten => "Environment :: WebAssembly :: Emscripten",
            Classifier::Environment__WebAssembly__WASI => "Environment :: WebAssembly :: WASI",
            Classifier::Environment__Win32MSWindows => "Environment :: Win32 (MS Windows)",
            Classifier::Environment__X11Applications => "Environment :: X11 Applications",
            Classifier::Environment__X11Applications__GTK => "Environment :: X11 Applications :: GTK",
            Classifier::Environment__X11Applications__Gnome => "Environment :: X11 Applications :: Gnome",
            Classifier::Environment__X11Applications__KDE => "Environment :: X11 Applications :: KDE",
            Classifier::Environment__X11Applications__Qt => "Environment :: X11 Applications :: Qt",
            Classifier::Framework__AWSCDK => "Framework :: AWS CDK",
            Classifier::Framework__AWSCDK__1 => "Framework :: AWS CDK :: 1",
            Classifier::Framework__AWSCDK__2 => "Framework :: AWS CDK :: 2",
            Classifier::Framework__AiiDA => "Framework :: AiiDA",
            Classifier::Framework__Ansible => "Framework :: Ansible",
            Classifier::Framework__AnyIO => "Framework :: AnyIO",
            Classifier::Framework__ApacheAirflow => "Framework :: Apache Airflow",
            Classifier::Framework__ApacheAirflow__Provider => "Framework :: Apache Airflow :: Provider",
            Classifier::Framework__AsyncIO => "Framework :: AsyncIO",
            Classifier::Framework__BEAT => "Framework :: BEAT",
            Classifier::Framework__BFG => "Framework :: BFG",
            Classifier::Framework__Bob => "Framework :: Bob",
            Classifier::Framework__Bottle => "Framework :: Bottle",
            Classifier::Framework__Buildout => "Framework :: Buildout",
            Classifier::Framework__Buildout__Extension => "Framework :: Buildout :: Extension",
            Classifier::Framework__Buildout__Recipe => "Framework :: Buildout :: Recipe",
            Classifier::Framework__CastleCMS => "Framework :: CastleCMS",
            Classifier::Framework__CastleCMS__Theme => "Framework :: CastleCMS :: Theme",
            Classifier::Framework__Celery => "Framework :: Celery",
            Classifier::Framework__Chandler => "Framework :: Chandler",
            Classifier::Framework__CherryPy => "Framework :: CherryPy",
            Classifier::Framework__CubicWeb => "Framework :: CubicWeb",
            Classifier::Framework__Dash => "Framework :: Dash",
            Classifier::Framework__Datasette => "Framework :: Datasette",
            Classifier::Framework__Django => "Framework :: Django",
            Classifier::Framework__Django__1 => "Framework :: Django :: 1",
            Classifier::Framework__Django__1_10 => "Framework :: Django :: 1.10",
            Classifier::Framework__Django__1_11 => "Framework :: Django :: 1.11",
            Classifier::Framework__Django__1_4 => "Framework :: Django :: 1.4",
            Classifier::Framework__Django__1_5 => "Framework :: Django :: 1.5",
            Classifier::Framework__Django__1_6 => "Framework :: Django :: 1.6",
            Classifier::Framework__Django__1_7 => "Framework :: Django :: 1.7",
            Classifier::Framework__Django__1_8 => "Framework :: Django :: 1.8",
            Classifier::Framework__Django__1_9 => "Framework :: Django :: 1.9",
            Classifier::Framework__Django__2 => "Framework :: Django :: 2",
            Classifier::Framework__Django__2_0 => "Framework :: Django :: 2.0",
            Classifier::Framework__Django__2_1 => "Framework :: Django :: 2.1",
            Classifier::Framework__Django__2_2 => "Framework :: Django :: 2.2",
            Classifier::Framework__Django__3 => "Framework :: Django :: 3",
            Classifier::Framework__Django__3_0 => "Framework :: Django :: 3.0",
            Classifier::Framework__Django__3_1 => "Framework :: Django :: 3.1",
            Classifier::Framework__Django__3_2 => "Framework :: Django :: 3.2",
            Classifier::Framework__Django__4 => "Framework :: Django :: 4",
            Classifier::Framework__Django__4_0 => "Framework :: Django :: 4.0",
            Classifier::Framework__Django__4_1 => "Framework :: Django :: 4.1",
            Classifier::Framework__Django__4_2 => "Framework :: Django :: 4.2",
            Classifier::Framework__Django__5 => "Framework :: Django :: 5",
            Classifier::Framework__Django__5_0 => "Framework :: Django :: 5.0",
            Classifier::Framework__Django__5_1 => "Framework :: Django :: 5.1",
            Classifier::Framework__Django__5_2 => "Framework :: Django :: 5.2",
            Classifier::Framework__DjangoCMS => "Framework :: Django CMS",
            Classifier::Framework__DjangoCMS__3_10 => "Framework :: Django CMS :: 3.10",
            Classifier::Framework__DjangoCMS__3_11 => "Framework :: Django CMS :: 3.11",
            Classifier::Framework__DjangoCMS__3_4 => "Framework :: Django CMS :: 3.4",
            Classifier::Framework__DjangoCMS__3_5 => "Framework :: Django CMS :: 3.5",
            Classifier::Framework__DjangoCMS__3_6 => "Framework :: Django CMS :: 3.6",
            Classifier::Framework__DjangoCMS__3_7 => "Framework :: Django CMS :: 3.7",
            Classifier::Framework__DjangoCMS__3_8 => "Framework :: Django CMS :: 3.8",
            Classifier::Framework__DjangoCMS__3_9 => "Framework :: Django CMS :: 3.9",
            Classifier::Framework__DjangoCMS__4_0 => "Framework :: Django CMS :: 4.0",
            Classifier::Framework__DjangoCMS__4_1 => "Framework :: Django CMS :: 4.1",
            Classifier::Framework__FastAPI => "Framework :: FastAPI",
            Classifier::Framework__Flake8 => "Framework :: Flake8",
            Classifier::Framework__Flask => "Framework :: Flask",
            Classifier::Framework__Hatch => "Framework :: Hatch",
            Classifier::Framework__Hypothesis => "Framework :: Hypothesis",
            Classifier::Framework__IDLE => "Framework :: IDLE",
            Classifier::Framework__IPython => "Framework :: IPython",
            Classifier::Framework__Jupyter => "Framework :: Jupyter",
            Classifier::Framework__Jupyter__JupyterLab => "Framework :: Jupyter :: JupyterLab",
            Classifier::Framework__Jupyter__JupyterLab__1 => "Framework :: Jupyter :: JupyterLab :: 1",
            Classifier::Framework__Jupyter__JupyterLab__2 => "Framework :: Jupyter :: JupyterLab :: 2",
            _ => self.as_str_block_b(),
        }
    }

    /// One stretch of the rendering table; later ranks fall through.
    fn as_str_block_b(&self) -> (r: &'static str)
        requires
            self.rank() >= 150,
        ensures
            r@ == self.tag(),
    {
        match self {
            Classifier::Framework__Jupyter__JupyterLab__3 => "Framework :: Jupyter :: JupyterLab :: 3",
            Classifier::Framework__Jupyter__JupyterLab__4 => "Framework :: Jupyter :: JupyterLab :: 4",
            Classifier::Framework__Jupyter__JupyterLab__Extensions => "Framework :: Jupyter :: JupyterLab :: Extensions",
            Classifier::Framework__Jupyter__JupyterLab__Extensions__MimeRenderers => "Framework :: Jupyter :: JupyterLab :: Extensions :: Mime Renderers",
            Classifier::Framework__Jupyter__JupyterLab__Extensions__Prebuilt => "Framework :: Jupyter :: JupyterLab :: Extensions :: Prebuilt",
            Classifier::Framework__Jupyter__JupyterLab__Extensions__Themes => "Framework :: Jupyter :: JupyterLab :: Extensions :: Themes",
            Classifier::Framework__Kedro => "Framework :: Kedro",
            Classifier::Framework__Lektor => "Framework :: Lektor",
            Classifier::Framework__Masonite => "Framework :: Masonite",
            Classifier::Framework__Matplotlib => "Framework :: Matplotlib",
            Classifier::Framework__MkDocs => "Framework :: MkDocs",
            Classifier::Framework__Nengo => "Framework :: Nengo",
            Classifier::Framework__Odoo => "Framework :: Odoo",
            Classifier::Framework__Odoo__10_0 => "Framework :: Odoo :: 10.0",
            Classifier::Framework__Odoo__11_0 => "Framework :: Odoo :: 11.0",
            Classifier::Framework__Odoo__12_0 => "Framework :: Odoo :: 12.0",
            Classifier::Framework__Odoo__13_0 => "Framework :: Odoo :: 13.0",
            Classifier::Framework__Odoo__14_0 => "Framework :: Odoo :: 14.0",
            Classifier::Framework__Odoo__15_0 => "Framework :: Odoo :: 15.0",
            Classifier::Framework__Odoo__16_0 => "Framework :: Odoo :: 16.0",
            Classifier::Framework__Odoo__17_0 => "Framework :: Odoo :: 17.0",
            Classifier::Framework__Odoo__18_0 => "Framework :: Odoo :: 18.0",
            Classifier::Framework__Odoo__8_0 => "Framework :: Odoo :: 8.0",
            Classifier::Framework__Odoo__9_0 => "Framework :: Odoo :: 9.0",
            Classifier::Framework__OpenTelemetry => "Framework :: OpenTelemetry",
            Classifier::Framework__OpenTelemetry__Distros => "Framework :: OpenTelemetry :: Distros",
            Classifier::Framework__OpenTelemetry__Exporters => "Framework :: OpenTelemetry :: Exporters",
            Classifier::Framework__OpenTelemetry__Instrumentations => "Framework :: OpenTelemetry :: Instrumentations",
            Classifier::Framework__Opps => "Framework :: Opps",
            Classifier::Framework__Paste => "Framework :: Paste",
            Classifier::Framework__Pelican => "Framework :: Pelican",
            Classifier::Framework__Pelican__Plugins => "Framework :: Pelican :: Plugins",
            Classifier::Framework__Pelican__Themes => "Framework :: Pelican :: Themes",
            Classifier::Framework__Plone => "Framework :: Plone",
            Classifier::Framework__Plone__3_2 => "Framework :: Plone :: 3.2",
            Classifier::Framework__Plone__3_3 => "Framework :: Plone :: 3.3",
            Classifier::Framework__Plone__4_0 => "Framework :: Plone :: 4.0",
            Classifier::Framework__Plone__4_1 => "Framework :: Plone :: 4.1",
            Classifier::Framework__Plone__4_2 => "Framework :: Plone :: 4.2",
            Classifier::Framework__Plone__4_3 => "Framework :: Plone :: 4.3",
            Classifier::Framework__Plone__5_0 => "Framework :: Plone :: 5.0",
            Classifier::Framework__Plone__5_1 => "Framework :: Plone :: 5.1",
            Classifier::Framework__Plone__5_2 => "Framework :: Plone :: 5.2",
            Classifier::Framework__Plone__5_3 => "Framework :: Plone :: 5.3",
            Classifier::Framework__Plone__6_0 => "Framework :: Plone :: 6.0",
            Classifier::Framework__Plone__6_1 => "Framework :: Plone :: 6.1",
            Classifier::Framework__Plone__Addon => "Framework :: Plone :: Addon",
            Classifier::Framework__Plone__Core => "Framework :: Plone :: Core",
            Classifier::Framework__Plone__Distribution => "Framework :: Plone :: Distribution",
            Classifier::Framework__Plone__Theme => "Framework :: Plone :: Theme",
            Classifier::Framework__PySimpleGUI => "Framework :: PySimpleGUI",
            Classifier::Framework__PySimpleGUI__4 => "Framework :: PySimpleGUI :: 4",
            Classifier::Framework__PySimpleGUI__5 => "Framework :: PySimpleGUI :: 5",
            Classifier::Framework__Pycsou => "Framework :: Pycsou",
            Classifier::Framework__Pydantic => "Framework :: Pydantic",
            Classifier::Framework__Pydantic__1 => "Framework :: Pydantic :: 1",
            Classifier::Framework__Pydantic__2 => "Framework :: Pydantic :: 2",
            Classifier::Framework__Pylons => "Framework :: Pylons",
            Classifier::Framework__Pyramid => "Framework :: Pyramid",
            Classifier::Framework__Pytest => "Framework :: Pytest",
            Classifier::Framework__ReviewBoard => "Framework :: Review Board",
            Classifier::Framework__RobotFramework => "Framework :: Robot Framework",
            Classifier::Framework__RobotFramework__Library => "Framework :: Robot Framework :: Library",
            Classifier::Framework__RobotFramework__Tool => "Framework :: Robot Framework :: Tool",
            Classifier::Framework__Scrapy => "Framework :: Scrapy",
            Classifier::Framework__SetuptoolsPlugin => "Framework :: Setuptools Plugin",
            Classifier::Framework__Sphinx => "Framework :: Sphinx",
            Classifier::Framework__Sphinx__Domain => "Framework :: Sphinx :: Domain",
            Classifier::Framework__Sphinx__Extension => "Framework :: Sphinx :: Extension",
            Classifier::Framework__Sphinx__Theme => "Framework :: Sphinx :: Theme",
            Classifier::Framework__Trac => "Framework :: Trac",
            Classifier::Framework__Trio => "Framework :: Trio",
            Classifier::Framework__Tryton => "Framework :: Tryton",
            Classifier::Framework__TurboGears => "Framework :: TurboGears",
            Classifier::Framework__TurboGears__Applications => "Framework :: TurboGears :: Applications",
            Classifier::Framework__TurboGears__Widgets => "Framework :: TurboGears :: Widgets",
            Classifier::Framework__Twisted => "Framework :: Twisted",
            Classifier::Framework__Wagtail => "Framework :: Wagtail",
            Classifier::Framework__Wagtail__1 => "Framework :: Wagtail :: 1",
            Classifier::Framework__Wagtail__2 => "Framework :: Wagtail :: 2",
            Classifier::Framework__Wagtail__3 => "Framework :: Wagtail :: 3",
            Classifier::Framework__Wagtail__4 => "Framework :: Wagtail :: 4",
            Classifier::Framework__Wagtail__5 => "Framework :: Wagtail :: 5",
            Classifier::Framework__Wagtail__6 => "Framework :: Wagtail :: 6",
            Classifier::Framework__ZODB => "Framework :: ZODB",
            Classifier::Framework__Zope => "Framework :: Zope",
            Classifier::Framework__Zope__2 => "Framework :: Zope :: 2",
            Classifier::Framework__Zope__3 => "Framework :: Zope :: 3",
            Classifier::Framework__Zope__4 => "Framework :: Zope :: 4",
            Classifier::Framework__Zope__5 => "Framework :: Zope :: 5",
            Classifier::Framework__Zope2 => "Framework :: Zope2",
            Classifier::Framework__Zope3 => "Framework :: Zope3",
            Classifier::Framework__aiohttp => "Framework :: aiohttp",
            Classifier::Framework__cocotb => "Framework :: cocotb",
            Classifier::Framework__napari => "Framework :: napari",
            Classifier::Framework__tox => "Framework :: tox",
            Classifier::IntendedAudience__CustomerService => "Intended Audience :: Customer Service",
            Classifier::IntendedAudience__Developers => "Intended Audience :: Developers",
            Classifier::IntendedAudience__Education => "Intended Audience :: Education",
            Classifier::IntendedAudience__EndUsersDesktop => "Intended Audience :: End Users/Desktop",
            Classifier::IntendedAudience__FinancialandInsuranceIndustry => "Intended Audience :: Financial and Insurance Industry",
            Classifier::IntendedAudience__HealthcareIndustry => "Intended Audience :: Healthcare Industry",
            Classifier::IntendedAudience__InformationTechnology => "Intended Audience :: Information Technology",
            Classifier::IntendedAudience__LegalIndustry => "Intended Audience :: Legal Industry",
            Classifier::IntendedAudience__Manufacturing => "Intended Audience :: Manufacturing",
            Classifier::IntendedAudience__OtherAudience => "Intended Audience :: Other Audience",
            Classifier::IntendedAudience__Religion => "Intended Audience :: Religion",
            Classifier::IntendedAudience__ScienceResearch => "Intended Audience :: Science/Research",
            Classifier::IntendedAudience__SystemAdministrators => "Intended Audience :: System Administrators",
            Classifier::IntendedAudience__TelecommunicationsIndustry => "Intended Audience :: Telecommunications Industry",
            Classifier::License__AladdinFreePublicLicenseAFPL => "License :: Aladdin Free Public License (AFPL)",
            Classifier::License__CC01_0UniversalCC01_0PublicDomainDedication => "License :: CC0 1.0 Universal (CC0 1.0) Public Domain Dedication",
            Classifier::License__CeCILLBFreeSoftwareLicenseAgreementCECILLB => "License :: CeCILL-B Free Software License Agreement (CECILL-B)",
            Classifier::License__CeCILLCFreeSoftwareLicenseAgreementCECILLC => "License :: CeCILL-C Free Software License Agreement (CECILL-C)",
            Classifier::License__DFSGapproved => "License :: DFSG approved",
            Classifier::License__EiffelForumLicenseEFL => "License :: Eiffel Forum License (EFL)",
            Classifier::License__FreeForEducationalUse => "License :: Free For Educational Use",
            Classifier::License__FreeForHomeUse => "License :: Free For Home Use",
            Classifier::License__FreeToUseButRestricted => "License :: Free To Use But Restricted",
            Classifier::License__Freefornoncommercialuse => "License :: Free for non-commercial use",
            Classifier::License__FreelyDistributable => "License :: Freely Distributable",
            Classifier::License__Freeware => "License :: Freeware",
            Classifier::License__GUSTFontLicense1_0 => "License :: GUST Font License 1.0",
            Classifier::License__GUSTFontLicense20060930 => "License :: GUST Font License 2006-09-30",
            Classifier::License__NetscapePublicLicenseNPL => "License :: Netscape Public License (NPL)",
            Classifier::License__NokiaOpenSourceLicenseNOKOS => "License :: Nokia Open Source License (NOKOS)",
            Classifier::License__OSIApproved => "License :: OSI Approved",
            Classifier::License__OSIApproved__AcademicFreeLicenseAFL => "License :: OSI Approved :: Academic Free License (AFL)",
            Classifier::License__OSIApproved__ApacheSoftwareLicense => "License :: OSI Approved :: Apache Software License",
            Classifier::License__OSIApproved__ApplePublicSourceLicense => "License :: OSI Approved :: Apple Public Source License",
            Classifier::License__OSIApproved__ArtisticLicense => "License :: OSI Approved :: Artistic License",
            Classifier::License__OSIApproved__AttributionAssuranceLicense => "License :: OSI Approved :: Attribution Assurance License",
            Classifier::License__OSIApproved__BSDLicense => "License :: OSI Approved :: BSD License",
            Classifier::License__OSIApproved__BlueOakModelLicenseBlueOak1_0_0 => "License :: OSI Approved :: Blue Oak Model License (BlueOak-1.0.0)",
            Classifier::License__OSIApproved__BoostSoftwareLicense1_0BSL1_0 => "License :: OSI Approved :: Boost Software License 1.0 (BSL-1.0)",
            Classifier::License__OSIApproved__CEACNRSInriaLogicielLibreLicense => "License :: OSI Approved :: CEA CNRS Inria Logiciel Libre License, version 2.1 (CeCILL-2.1)",
            Classifier::License__OSIApproved__CMULicenseMITCMU => "License :: OSI Approved :: CMU License (MIT-CMU)",
            Classifier::License__OSIApproved__CommonDevelopmentandDistributionLicense1_0CDDL1_0 => "License :: OSI Approved :: Common Development and Distribution License 1.0 (CDDL-1.0)",
            Classifier::License__OSIApproved__CommonPublicLicense => "License :: OSI Approved :: Common Public License",
            Classifier::License__OSIApproved__EclipsePublicLicense1_0EPL1_0 => "License :: OSI Approved :: Eclipse Public License 1.0 (EPL-1.0)",
            Classifier::License__OSIApproved__EclipsePublicLicense2_0EPL2_0 => "License :: OSI Approved :: Eclipse Public License 2.0 (EPL-2.0)",
            Classifier::License__OSIApproved__EducationalCommunityLicense => "License :: OSI Approved :: Educational Community License, Version 2.0 (ECL-2.0)",
            Classifier::License__OSIApproved__EiffelForumLicense => "License :: OSI Approved :: Eiffel Forum License",
            Classifier::License__OSIApproved__EuropeanUnionPublicLicence1_0EUPL1_0 => "License :: OSI Approved :: European Union Public Licence 1.0 (EUPL 1.0)",
            Classifier::License__OSIApproved__EuropeanUnionPublicLicence1_1EUPL1_1 => "License :: OSI Approved :: European Union Public Licence 1.1 (EUPL 1.1)",
            Classifier::License__OSIApproved__EuropeanUnionPublicLicence1_2EUPL1_2 => "License :: OSI Approved :: European Union Public Licence 1.2 (EUPL 1.2)",
            Classifier::License__OSIApproved__GNUAfferoGeneralPublicLicensev3 => "License :: OSI Approved :: GNU Affero General Public License v3",
            Classifier::License__OSIApproved__GNUAfferoGeneralPublicLicensev3orlaterAGPLv3plus => "License :: OSI Approved :: GNU Affero General Public License v3 or later (AGPLv3+)",
            Classifier::License__OSIApproved__GNUFreeDocumentationLicenseFDL => "License :: OSI Approved :: GNU Free Documentation License (FDL)",
            Classifier::License__OSIApproved__GNUGeneralPublicLicenseGPL => "License :: OSI Approved :: GNU General Public License (GPL)",
            _ => self.as_str_block_c(),
        }
    }

    /// One stretch of the rendering table; later ranks fall through.
    fn as_str_block_c(&self) -> (r: &'static str)
        requires
            self.rank() >= 300,
        ensures
            r@ == self.tag(),
    {
        match self {
            Classifier::License__OSIApproved__GNUGeneralPublicLicensev2GPLv2 => "License :: OSI Approved :: GNU General Public License v2 (GPLv2)",
            Classifier::License__OSIApproved__GNUGeneralPublicLicensev2orlaterGPLv2plus => "License :: OSI Approved :: GNU General Public License v2 or later (GPLv2+)",
            Classifier::License__OSIApproved__GNUGeneralPublicLicensev3GPLv3 => "License :: OSI Approved :: GNU General Public License v3 (GPLv3)",
            Classifier::License__OSIApproved__GNUGeneralPublicLicensev3orlaterGPLv3plus => "License :: OSI Approved :: GNU General Public License v3 or later (GPLv3+)",
            Classifier::License__OSIApproved__GNULesserGeneralPublicLicensev2LGPLv2 => "License :: OSI Approved :: GNU Lesser General Public License v2 (LGPLv2)",
            Classifier::License__OSIApproved__GNULesserGeneralPublicLicensev2orlaterLGPLv2plus => "License :: OSI Approved :: GNU Lesser General Public License v2 or later (LGPLv2+)",
            Classifier::License__OSIApproved__GNULesserGeneralPublicLicensev3LGPLv3 => "License :: OSI Approved :: GNU Lesser General Public License v3 (LGPLv3)",
            Classifier::License__OSIApproved__GNULesserGeneralPublicLicensev3orlaterLGPLv3plus => "License :: OSI Approved :: GNU Lesser General Public License v3 or later (LGPLv3+)",
            Classifier::License__OSIApproved__GNULibraryorLesserGeneralPublicLicenseLGPL => "License :: OSI Approved :: GNU Library or Lesser General Public License (LGPL)",
            Classifier::License__OSIApproved__HistoricalPermissionNoticeandDisclaimerHPND => "License :: OSI Approved :: Historical Permission Notice and Disclaimer (HPND)",
            Classifier::License__OSIApproved__IBMPublicLicense => "License :: OSI Approved :: IBM Public License",
            Classifier::License__OSIApproved__ISCLicenseISCL => "License :: OSI Approved :: ISC License (ISCL)",
            Classifier::License__OSIApproved__IntelOpenSourceLicense => "License :: OSI Approved :: Intel Open Source License",
            Classifier::License__OSIApproved__JabberOpenSourceLicense => "License :: OSI Approved :: Jabber Open Source License",
            Classifier::License__OSIApproved__MITLicense => "License :: OSI Approved :: MIT License",
            Classifier::License__OSIApproved__MITNoAttributionLicenseMIT0 => "License :: OSI Approved :: MIT No Attribution License (MIT-0)",
            Classifier::License__OSIApproved__MITRECollaborativeVirtualWorkspaceLicenseCVW => "License :: OSI Approved :: MITRE Collaborative Virtual Workspace License (CVW)",
            Classifier::License__OSIApproved__MirOSLicenseMirOS => "License :: OSI Approved :: MirOS License (MirOS)",
            Classifier::License__OSIApproved__MotosotoLicense => "License :: OSI Approved :: Motosoto License",
            Classifier::License__OSIApproved__MozillaPublicLicense1_0MPL => "License :: OSI Approved :: Mozilla Public License 1.0 (MPL)",
            Classifier::License__OSIApproved__MozillaPublicLicense1_1MPL1_1 => "License :: OSI Approved :: Mozilla Public License 1.1 (MPL 1.1)",
            Classifier::License__OSIApproved__MozillaPublicLicense2_0MPL2_0 => "License :: OSI Approved :: Mozilla Public License 2.0 (MPL 2.0)",
            Classifier::License__OSIApproved__MulanPermissiveSoftwareLicensev2MulanPSL2_0 => "License :: OSI Approved :: Mulan Permissive Software License v2 (MulanPSL-2.0)",
            Classifier::License__OSIApproved__NASAOpenSourceAgreementv1_3NASA1_3 => "License :: OSI Approved :: NASA Open Source Agreement v1.3 (NASA-1.3)",
            Classifier::License__OSIApproved__NethackGeneralPublicLicense => "License :: OSI Approved :: Nethack General Public License",
            Classifier::License__OSIApproved__NokiaOpenSourceLicense => "License :: OSI Approved :: Nokia Open Source License",
            Classifier::License__OSIApproved__OpenGroupTestSuiteLicense => "License :: OSI Approved :: Open Group Test Suite License",
            Classifier::License__OSIApproved__OpenSoftwareLicense3_0OSL3_0 => "License :: OSI Approved :: Open Software License 3.0 (OSL-3.0)",
            Classifier::License__OSIApproved__PostgreSQLLicense => "License :: OSI Approved :: PostgreSQL License",
            Classifier::License__OSIApproved__PythonLicenseCNRIPythonLicense => "License :: OSI Approved :: Python License (CNRI Python License)",
            Classifier::License__OSIApproved__PythonSoftwareFoundationLicense => "License :: OSI Approved :: Python Software Foundation License",
            Classifier::License__OSIApproved__QtPublicLicenseQPL => "License :: OSI Approved :: Qt Public License (QPL)",
            Classifier::License__OSIApproved__RicohSourceCodePublicLicense => "License :: OSI Approved :: Ricoh Source Code Public License",
            Classifier::License__OSIApproved__SILOpenFontLicense1_1OFL1_1 => "License :: OSI Approved :: SIL Open Font License 1.1 (OFL-1.1)",
            Classifier::License__OSIApproved__SleepycatLicense => "License :: OSI Approved :: Sleepycat License",
            Classifier::License__OSIApproved__SunIndustryStandardsSourceLicenseSISSL => "License :: OSI Approved :: Sun Industry Standards Source License (SISSL)",
            Classifier::License__OSIApproved__SunPublicLicense => "License :: OSI Approved :: Sun Public License",
            Classifier::License__OSIApproved__TheUnlicenseUnlicense => "License :: OSI Approved :: The Unlicense (Unlicense)",
            Classifier::License__OSIApproved__UniversalPermissiveLicenseUPL => "License :: OSI Approved :: Universal Permissive License (UPL)",
            Classifier::License__OSIApproved__UniversityofIllinoisNCSAOpenSourceLicense => "License :: OSI Approved :: University of Illinois/NCSA Open Source License",
            Classifier::License__OSIApproved__VovidaSoftwareLicense1_0 => "License :: OSI Approved :: Vovida Software License 1.0",
            Classifier::License__OSIApproved__W3CLicense => "License :: OSI Approved :: W3C License",
            Classifier::License__OSIApproved__X_NetLicense => "License :: OSI Approved :: X.Net License",
            Classifier::License__OSIApproved__ZeroClauseBSD0BSD => "License :: OSI Approved :: Zero-Clause BSD (0BSD)",
            Classifier::License__OSIApproved__ZopePublicLicense => "License :: OSI Approved :: Zope Public License",
            Classifier::License__OSIApproved__zliblibpngLicense => "License :: OSI Approved :: zlib/libpng License",
            Classifier::License__OtherProprietaryLicense => "License :: Other/Proprietary License",
            Classifier::License__PublicDomain => "License :: Public Domain",
            Classifier::License__RepozePublicLicense => "License :: Repoze Public License",
            Classifier::NaturalLanguage__Afrikaans => "Natural Language :: Afrikaans",
            Classifier::NaturalLanguage__Arabic => "Natural Language :: Arabic",
            Classifier::NaturalLanguage__Basque => "Natural Language :: Basque",
            Classifier::NaturalLanguage__Bengali => "Natural Language :: Bengali",
            Classifier::NaturalLanguage__Bosnian => "Natural Language :: Bosnian",
            Classifier::NaturalLanguage__Bulgarian => "Natural Language :: Bulgarian",
            Classifier::NaturalLanguage__Cantonese => "Natural Language :: Cantonese",
            Classifier::NaturalLanguage__Catalan => "Natural Language :: Catalan",
            Classifier::NaturalLanguage__CatalanValencian => "Natural Language :: Catalan (Valencian)",
            Classifier::NaturalLanguage__ChineseSimplified => "Natural Language :: Chinese (Simplified)",
            Classifier::NaturalLanguage__ChineseTraditional => "Natural Language :: Chinese (Traditional)",
            Classifier::NaturalLanguage__Croatian => "Natural Language :: Croatian",
            Classifier::NaturalLanguage__Czech => "Natural Language :: Czech",
            Classifier::NaturalLanguage__Danish => "Natural Language :: Danish",
            Classifier::NaturalLanguage__Dutch => "Natural Language :: Dutch",
            Classifier::NaturalLanguage__English => "Natural Language :: English",
            Classifier::NaturalLanguage__Esperanto => "Natural Language :: Esperanto",
            Classifier::NaturalLanguage__Finnish => "Natural Language :: Finnish",
            Classifier::NaturalLanguage__French => "Natural Language :: French",
            Classifier::NaturalLanguage__Galician => "Natural Language :: Galician",
            Classifier::NaturalLanguage__Georgian => "Natural Language :: Georgian",
            Classifier::NaturalLanguage__German => "Natural Language :: German",
            Classifier::NaturalLanguage__Greek => "Natural Language :: Greek",
            Classifier::NaturalLanguage__Hebrew => "Natural Language :: Hebrew",
            Classifier::NaturalLanguage__Hindi => "Natural Language :: Hindi",
            Classifier::NaturalLanguage__Hungarian => "Natural Language :: Hungarian",
            Classifier::NaturalLanguage__Icelandic => "Natural Language :: Icelandic",
            Classifier::NaturalLanguage__Indonesian => "Natural Language :: Indonesian",
            Classifier::NaturalLanguage__Irish => "Natural Language :: Irish",
            Classifier::NaturalLanguage__Italian => "Natural Language :: Italian",
            Classifier::NaturalLanguage__Japanese => "Natural Language :: Japanese",
            Classifier::NaturalLanguage__Javanese => "Natural Language :: Javanese",
            Classifier::NaturalLanguage__Korean => "Natural Language :: Korean",
            Classifier::NaturalLanguage__Latin => "Natural Language :: Latin",
            Classifier::NaturalLanguage__Latvian => "Natural Language :: Latvian",
            Classifier::NaturalLanguage__Lithuanian => "Natural Language :: Lithuanian",
            Classifier::NaturalLanguage__Macedonian => "Natural Language :: Macedonian",
            Classifier::NaturalLanguage__Malay => "Natural Language :: Malay",
            Classifier::NaturalLanguage__Marathi => "Natural Language :: Marathi",
            Classifier::NaturalLanguage__Nepali => "Natural Language :: Nepali",
            Classifier::NaturalLanguage__Norwegian => "Natural Language :: Norwegian",
            Classifier::NaturalLanguage__Panjabi => "Natural Language :: Panjabi",
            Classifier::NaturalLanguage__Persian => "Natural Language :: Persian",
            Classifier::NaturalLanguage__Polish => "Natural Language :: Polish",
            Classifier::NaturalLanguage__Portuguese => "Natural Language :: Portuguese",
            Classifier::NaturalLanguage__PortugueseBrazilian => "Natural Language :: Portuguese (Brazilian)",
            Classifier::NaturalLanguage__Romanian => "Natural Language :: Romanian",
            Classifier::NaturalLanguage__Russian => "Natural Language :: Russian",
            Classifier::NaturalLanguage__Serbian => "Natural Language :: Serbian",
            Classifier::NaturalLanguage__Slovak => "Natural Language :: Slovak",
            Classifier::NaturalLanguage__Slovenian => "Natural Language :: Slovenian",
            Classifier::NaturalLanguage__Spanish => "Natural Language :: Spanish",
            Classifier::NaturalLanguage__Swedish => "Natural Language :: Swedish",
            Classifier::NaturalLanguage__Tamil => "Natural Language :: Tamil",
            Classifier::NaturalLanguage__Telugu => "Natural Language :: Telugu",
            Classifier::NaturalLanguage__Thai => "Natural Language :: Thai",
            Classifier::NaturalLanguage__Tibetan => "Natural Language :: Tibetan",
            Classifier::NaturalLanguage__Turkish => "Natural Language :: Turkish",
            Classifier::NaturalLanguage__Ukrainian => "Natural Language :: Ukrainian",
            Classifier::NaturalLanguage__Urdu => "Natural Language :: Urdu",
            Classifier::NaturalLanguage__Vietnamese => "Natural Language :: Vietnamese",
            Classifier::OperatingSystem__Android => "Operating System :: Android",
            Classifier::OperatingSystem__BeOS => "Operating System :: BeOS",
            Classifier::OperatingSystem__MacOS => "Operating System :: MacOS",
            Classifier::OperatingSystem__MacOS__MacOS9 => "Operating System :: MacOS :: MacOS 9",
            Classifier::OperatingSystem__MacOS__MacOSX => "Operating System :: MacOS :: MacOS X",
            Classifier::OperatingSystem__Microsoft => "Operating System :: Microsoft",
            Classifier::OperatingSystem__Microsoft__MSDOS => "Operating System :: Microsoft :: MS-DOS",
            Classifier::OperatingSystem__Microsoft__Windows => "Operating System :: Microsoft :: Windows",
            Classifier::OperatingSystem__Microsoft__Windows__Windows10 => "Operating System :: Microsoft :: Windows :: Windows 10",
            Classifier::OperatingSystem__Microsoft__Windows__Windows11 => "Operating System :: Microsoft :: Windows :: Windows 11",
            Classifier::OperatingSystem__Microsoft__Windows__Windows3_1orEarlier => "Operating System :: Microsoft :: Windows :: Windows 3.1 or Earlier",
            Classifier::OperatingSystem__Microsoft__Windows__Windows7 => "Operating System :: Microsoft :: Windows :: Windows 7",
            Classifier::OperatingSystem__Microsoft__Windows__Windows8 => "Operating System :: Microsoft :: Windows :: Windows 8",
            Classifier::OperatingSystem__Microsoft__Windows__Windows8_1 => "Operating System :: Microsoft :: Windows :: Windows 8.1",
            Classifier::OperatingSystem__Microsoft__Windows__Windows95982000 => "Operating System :: Microsoft :: Windows :: Windows 95/98/2000",
            Classifier::OperatingSystem__Microsoft__Windows__WindowsCE => "Operating System :: Microsoft :: Windows :: Windows CE",
            Classifier::OperatingSystem__Microsoft__Windows__WindowsNT2000 => "Operating System :: Microsoft :: Windows :: Windows NT/2000",
            Classifier::OperatingSystem__Microsoft__Windows__WindowsServer2003 => "Operating System :: Microsoft :: Windows :: Windows Server 2003",
            Classifier::OperatingSystem__Microsoft__Windows__WindowsServer2008 => "Operating System :: Microsoft :: Windows :: Windows Server 2008",
            Classifier::OperatingSystem__Microsoft__Windows__WindowsVista => "Operating System :: Microsoft :: Windows :: Windows Vista",
            Classifier::OperatingSystem__Microsoft__Windows__WindowsXP => "Operating System :: Microsoft :: Windows :: Windows XP",
            Classifier::OperatingSystem__OSIndependent => "Operating System :: OS Independent",
            Classifier::OperatingSystem__OS2 => "Operating System :: OS/2",
            Classifier::OperatingSystem__OtherOS => "Operating System :: Other OS",
            Classifier::OperatingSystem__PDASystems => "Operating System :: PDA Systems",
            Classifier::OperatingSystem__POSIX => "Operating System :: POSIX",
            Classifier::OperatingSystem__POSIX__AIX => "Operating System :: POSIX :: AIX",
            Classifier::OperatingSystem__POSIX__BSD => "Operating System :: POSIX :: BSD",
            Classifier::OperatingSystem__POSIX__BSD__BSDOS => "Operating System :: POSIX :: BSD :: BSD/OS",
            Classifier::OperatingSystem__POSIX__BSD__FreeBSD => "Operating System :: POSIX :: BSD :: FreeBSD",
            Classifier::OperatingSystem__POSIX__BSD__NetBSD => "Operating System :: POSIX :: BSD :: NetBSD",
            Classifier::OperatingSystem__POSIX__BSD__OpenBSD => "Operating System :: POSIX :: BSD :: OpenBSD",
            Classifier::OperatingSystem__POSIX__GNUHurd => "Operating System :: POSIX :: GNU Hurd",
            Classifier::OperatingSystem__POSIX__HPUX => "Operating System :: POSIX :: HP-UX",
            Classifier::OperatingSystem__POSIX__IRIX => "Operating System :: POSIX :: IRIX",
            Classifier::OperatingSystem__POSIX__Linux => "Operating System :: POSIX :: Linux",
            Classifier::OperatingSystem__POSIX__Other => "Operating System :: POSIX :: Other",
            Classifier::OperatingSystem__POSIX__SCO => "Operating System :: POSIX :: SCO",
            Classifier::OperatingSystem__POSIX__SunOSSolaris => "Operating System :: POSIX :: SunOS/Solaris",
            Classifier::OperatingSystem__PalmOS => "Operating System :: PalmOS",
            _ => self.as_str_block_d(),
        }
    }

    /// One stretch of the rendering table; later ranks fall through.
    fn as_str_block_d(&self) -> (r: &'static str)
        requires
            self.rank() >= 450,
        ensures
            r@ == self.tag(),
    {
        match self {
            Classifier::OperatingSystem__RISCOS => "Operating System :: RISC OS",
            Classifier::OperatingSystem__Unix => "Operating System :: Unix",
            Classifier::OperatingSystem__iOS => "Operating System :: iOS",
            Classifier::ProgrammingLanguage__APL => "Programming Language :: APL",
            Classifier::ProgrammingLanguage__ASP => "Programming Language :: ASP",
            Classifier::ProgrammingLanguage__Ada => "Programming Language :: Ada",
            Classifier::ProgrammingLanguage__Assembly => "Programming Language :: Assembly",
            Classifier::ProgrammingLanguage__Awk => "Programming Language :: Awk",
            Classifier::ProgrammingLanguage__Basic => "Programming Language :: Basic",
            Classifier::ProgrammingLanguage__C => "Programming Language :: C",
            Classifier::ProgrammingLanguage__Csharp => "Programming Language :: C#",
            Classifier::ProgrammingLanguage__Cplusplus => "Programming Language :: C++",
            Classifier::ProgrammingLanguage__ColdFusion => "Programming Language :: Cold Fusion",
            Classifier::ProgrammingLanguage__Cython => "Programming Language :: Cython",
            Classifier::ProgrammingLanguage__D => "Programming Language :: D",
            Classifier::ProgrammingLanguage__DelphiKylix => "Programming Language :: Delphi/Kylix",
            Classifier::ProgrammingLanguage__Dylan => "Programming Language :: Dylan",
            Classifier::ProgrammingLanguage__Eiffel => "Programming Language :: Eiffel",
            Classifier::ProgrammingLanguage__EmacsLisp => "Programming Language :: Emacs-Lisp",
            Classifier::ProgrammingLanguage__Erlang => "Programming Language :: Erlang",
            Classifier::ProgrammingLanguage__Euler => "Programming Language :: Euler",
            Classifier::ProgrammingLanguage__Euphoria => "Programming Language :: Euphoria",
            Classifier::ProgrammingLanguage__Fsharp => "Programming Language :: F#",
            Classifier::ProgrammingLanguage__Forth => "Programming Language :: Forth",
            Classifier::ProgrammingLanguage__Fortran => "Programming Language :: Fortran",
            Classifier::ProgrammingLanguage__Go => "Programming Language :: Go",
            Classifier::ProgrammingLanguage__Haskell => "Programming Language :: Haskell",
            Classifier::ProgrammingLanguage__Hy => "Programming Language :: Hy",
            Classifier::ProgrammingLanguage__Java => "Programming Language :: Java",
            Classifier::ProgrammingLanguage__JavaScript => "Programming Language :: JavaScript",
            Classifier::ProgrammingLanguage__Kotlin => "Programming Language :: Kotlin",
            Classifier::ProgrammingLanguage__Lisp => "Programming Language :: Lisp",
            Classifier::ProgrammingLanguage__Logo => "Programming Language :: Logo",
            Classifier::ProgrammingLanguage__Lua => "Programming Language :: Lua",
            Classifier::ProgrammingLanguage__ML => "Programming Language :: ML",
            Classifier::ProgrammingLanguage__Modula => "Programming Language :: Modula",
            Classifier::ProgrammingLanguage__OCaml => "Programming Language :: OCaml",
            Classifier::ProgrammingLanguage__ObjectPascal => "Programming Language :: Object Pascal",
            Classifier::ProgrammingLanguage__ObjectiveC => "Programming Language :: Objective C",
            Classifier::ProgrammingLanguage__Other => "Programming Language :: Other",
            Classifier::ProgrammingLanguage__OtherScriptingEngines => "Programming Language :: Other Scripting Engines",
            Classifier::ProgrammingLanguage__PHP => "Programming Language :: PHP",
            Classifier::ProgrammingLanguage__PLSQL => "Programming Language :: PL/SQL",
            Classifier::ProgrammingLanguage__PROGRESS => "Programming Language :: PROGRESS",
            Classifier::ProgrammingLanguage__Pascal => "Programming Language :: Pascal",
            Classifier::ProgrammingLanguage__Perl => "Programming Language :: Perl",
            Classifier::ProgrammingLanguage__Pike => "Programming Language :: Pike",
            Classifier::ProgrammingLanguage__Pliant => "Programming Language :: Pliant",
            Classifier::ProgrammingLanguage__Prolog => "Programming Language :: Prolog",
            Classifier::ProgrammingLanguage__Python => "Programming Language :: Python",
            Classifier::ProgrammingLanguage__Python__2 => "Programming Language :: Python :: 2",
            Classifier::ProgrammingLanguage__Python__2__Only => "Programming Language :: Python :: 2 :: Only",
            Classifier::ProgrammingLanguage__Python__2_3 => "Programming Language :: Python :: 2.3",
            Classifier::ProgrammingLanguage__Python__2_4 => "Programming Language :: Python :: 2.4",
            Classifier::ProgrammingLanguage__Python__2_5 => "Programming Language :: Python :: 2.5",
            Classifier::ProgrammingLanguage__Python__2_6 => "Programming Language :: Python :: 2.6",
            Classifier::ProgrammingLanguage__Python__2_7 => "Programming Language :: Python :: 2.7",
            Classifier::ProgrammingLanguage__Python__3 => "Programming Language :: Python :: 3",
            Classifier::ProgrammingLanguage__Python__3__Only => "Programming Language :: Python :: 3 :: Only",
            Classifier::ProgrammingLanguage__Python__3_0 => "Programming Language :: Python :: 3.0",
            Classifier::ProgrammingLanguage__Python__3_1 => "Programming Language :: Python :: 3.1",
            Classifier::ProgrammingLanguage__Python__3_10 => "Programming Language :: Python :: 3.10",
            Classifier::ProgrammingLanguage__Python__3_11 => "Programming Language :: Python :: 3.11",
            Classifier::ProgrammingLanguage__Python__3_12 => "Programming Language :: Python :: 3.12",
            Classifier::ProgrammingLanguage__Python__3_13 => "Programming Language :: Python :: 3.13",
            Classifier::ProgrammingLanguage__Python__3_14 => "Programming Language :: Python :: 3.14",
            Classifier::ProgrammingLanguage__Python__3_2 => "Programming Language :: Python :: 3.2",
            Classifier::ProgrammingLanguage__Python__3_3 => "Programming Language :: Python :: 3.3",
            Classifier::ProgrammingLanguage__Python__3_4 => "Programming Language :: Python :: 3.4",
            Classifier::ProgrammingLanguage__Python__3_5 => "Programming Language :: Python :: 3.5",
            Classifier::ProgrammingLanguage__Python__3_6 => "Programming Language :: Python :: 3.6",
            Classifier::ProgrammingLanguage__Python__3_7 => "Programming Language :: Python :: 3.7",
            Classifier::ProgrammingLanguage__Python__3_8 => "Programming Language :: Python :: 3.8",
            Classifier::ProgrammingLanguage__Python__3_9 => "Programming Language :: Python :: 3.9",
            Classifier::ProgrammingLanguage__Python__Implementation => "Programming Language :: Python :: Implementation",
            Classifier::ProgrammingLanguage__Python__Implementation__CPython => "Programming Language :: Python :: Implementation :: CPython",
            Classifier::ProgrammingLanguage__Python__Implementation__IronPython => "Programming Language :: Python :: Implementation :: IronPython",
            Classifier::ProgrammingLanguage__Python__Implementation__Jython => "Programming Language :: Python :: Implementation :: Jython",
            Classifier::ProgrammingLanguage__Python__Implementation__MicroPython => "Programming Language :: Python :: Implementation :: MicroPython",
            Classifier::ProgrammingLanguage__Python__Implementation__PyPy => "Programming Language :: Python :: Implementation :: PyPy",
            Classifier::ProgrammingLanguage__Python__Implementation__Stackless => "Programming Language :: Python :: Implementation :: Stackless",
            Classifier::ProgrammingLanguage__R => "Programming Language :: R",
            Classifier::ProgrammingLanguage__REBOL => "Programming Language :: REBOL",
            Classifier::ProgrammingLanguage__Rexx => "Programming Language :: Rexx",
            Classifier::ProgrammingLanguage__Ruby => "Programming Language :: Ruby",
            Classifier::ProgrammingLanguage__Rust => "Programming Language :: Rust",
            Classifier::ProgrammingLanguage__SQL => "Programming Language :: SQL",
            Classifier::ProgrammingLanguage__Scheme => "Programming Language :: Scheme",
            Classifier::ProgrammingLanguage__Simula => "Programming Language :: Simula",
            Classifier::ProgrammingLanguage__Smalltalk => "Programming Language :: Smalltalk",
            Classifier::ProgrammingLanguage__Tcl => "Programming Language :: Tcl",
            Classifier::ProgrammingLanguage__UnixShell => "Programming Language :: Unix Shell",
            Classifier::ProgrammingLanguage__VisualBasic => "Programming Language :: Visual Basic",
            Classifier::ProgrammingLanguage__XBasic => "Programming Language :: XBasic",
            Classifier::ProgrammingLanguage__YACC => "Programming Language :: YACC",
            Classifier::ProgrammingLanguage__Zope => "Programming Language :: Zope",
            Classifier::Topic__AdaptiveTechnologies => "Topic :: Adaptive Technologies",
            Classifier::Topic__ArtisticSoftware => "Topic :: Artistic Software",
            Classifier::Topic__Communications => "Topic :: Communications",
            Classifier::Topic__Communications__BBS => "Topic :: Communications :: BBS",
            Classifier::Topic__Communications__Chat => "Topic :: Communications :: Chat",
            Classifier::Topic__Communications__Chat__ICQ => "Topic :: Communications :: Chat :: ICQ",
            Classifier::Topic__Communications__Chat__InternetRelayChat => "Topic :: Communications :: Chat :: Internet Relay Chat",
            Classifier::Topic__Communications__Chat__UnixTalk => "Topic :: Communications :: Chat :: Unix Talk",
            Classifier::Topic__Communications__Conferencing => "Topic :: Communications :: Conferencing",
            Classifier::Topic__Communications__Email => "Topic :: Communications :: Email",
            Classifier::Topic__Communications__Email__AddressBook => "Topic :: Communications :: Email :: Address Book",
            Classifier::Topic__Communications__Email__EmailClientsMUA => "Topic :: Communications :: Email :: Email Clients (MUA)",
            Classifier::Topic__Communications__Email__Filters => "Topic :: Communications :: Email :: Filters",
            Classifier::Topic__Communications__Email__MailTransportAgents => "Topic :: Communications :: Email :: Mail Transport Agents",
            Classifier::Topic__Communications__Email__MailingListServers => "Topic :: Communications :: Email :: Mailing List Servers",
            Classifier::Topic__Communications__Email__PostOffice => "Topic :: Communications :: Email :: Post-Office",
            Classifier::Topic__Communications__Email__PostOffice__IMAP => "Topic :: Communications :: Email :: Post-Office :: IMAP",
            Classifier::Topic__Communications__Email__PostOffice__POP3 => "Topic :: Communications :: Email :: Post-Office :: POP3",
            Classifier::Topic__Communications__FIDO => "Topic :: Communications :: FIDO",
            Classifier::Topic__Communications__Fax => "Topic :: Communications :: Fax",
            Classifier::Topic__Communications__FileSharing => "Topic :: Communications :: File Sharing",
            Classifier::Topic__Communications__FileSharing__Gnutella => "Topic :: Communications :: File Sharing :: Gnutella",
            Classifier::Topic__Communications__FileSharing__Napster => "Topic :: Communications :: File Sharing :: Napster",
            Classifier::Topic__Communications__HamRadio => "Topic :: Communications :: Ham Radio",
            Classifier::Topic__Communications__InternetPhone => "Topic :: Communications :: Internet Phone",
            Classifier::Topic__Communications__Telephony => "Topic :: Communications :: Telephony",
            Classifier::Topic__Communications__UsenetNews => "Topic :: Communications :: Usenet News",
            Classifier::Topic__Database => "Topic :: Database",
            Classifier::Topic__Database__DatabaseEnginesServers => "Topic :: Database :: Database Engines/Servers",
            Classifier::Topic__Database__FrontEnds => "Topic :: Database :: Front-Ends",
            Classifier::Topic__DesktopEnvironment => "Topic :: Desktop Environment",
            Classifier::Topic__DesktopEnvironment__FileManagers => "Topic :: Desktop Environment :: File Managers",
            Classifier::Topic__DesktopEnvironment__GNUstep => "Topic :: Desktop Environment :: GNUstep",
            Classifier::Topic__DesktopEnvironment__Gnome => "Topic :: Desktop Environment :: Gnome",
            Classifier::Topic__DesktopEnvironment__KDesktopEnvironmentKDE => "Topic :: Desktop Environment :: K Desktop Environment (KDE)",
            Classifier::Topic__DesktopEnvironment__KDesktopEnvironmentKDE__Themes => "Topic :: Desktop Environment :: K Desktop Environment (KDE) :: Themes",
            Classifier::Topic__DesktopEnvironment__PicoGUI => "Topic :: Desktop Environment :: PicoGUI",
            Classifier::Topic__DesktopEnvironment__PicoGUI__Applications => "Topic :: Desktop Environment :: PicoGUI :: Applications",
            Classifier::Topic__DesktopEnvironment__PicoGUI__Themes => "Topic :: Desktop Environment :: PicoGUI :: Themes",
            Classifier::Topic__DesktopEnvironment__ScreenSavers => "Topic :: Desktop Environment :: Screen Savers",
            Classifier::Topic__DesktopEnvironment__WindowManagers => "Topic :: Desktop Environment :: Window Managers",
            Classifier::Topic__DesktopEnvironment__WindowManagers__Afterstep => "Topic :: Desktop Environment :: Window Managers :: Afterstep",
            Classifier::Topic__DesktopEnvironment__WindowManagers__Afterstep__Themes => "Topic :: Desktop Environment :: Window Managers :: Afterstep :: Themes",
            Classifier::Topic__DesktopEnvironment__WindowManagers__Applets => "Topic :: Desktop Environment :: Window Managers :: Applets",
            Classifier::Topic__DesktopEnvironment__WindowManagers__Blackbox => "Topic :: Desktop Environment :: Window Managers :: Blackbox",
            Classifier::Topic__DesktopEnvironment__WindowManagers__Blackbox__Themes => "Topic :: Desktop Environment :: Window Managers :: Blackbox :: Themes",
            Classifier::Topic__DesktopEnvironment__WindowManagers__CTWM => "Topic :: Desktop Environment :: Window Managers :: CTWM",
            Classifier::Topic__DesktopEnvironment__WindowManagers__CTWM__Themes => "Topic :: Desktop Environment :: Window Managers :: CTWM :: Themes",
            Classifier::Topic__DesktopEnvironment__WindowManagers__Enlightenment => "Topic :: Desktop Environment :: Window Managers :: Enlightenment",
            Classifier::Topic__DesktopEnvironment__WindowManagers__Enlightenment__Epplets => "Topic :: Desktop Environment :: Window Managers :: Enlightenment :: Epplets",
            Classifier::Topic__DesktopEnvironment__WindowManagers__Enlightenment__ThemesDR15 => "Topic :: Desktop Environment :: Window Managers :: Enlightenment :: Themes DR15",
            Classifier::Topic__DesktopEnvironment__WindowManagers__Enlightenment__ThemesDR16 => "Topic :: Desktop Environment :: Window Managers :: Enlightenment :: Themes DR16",
            Classifier::Topic__DesktopEnvironment__WindowManagers__Enlightenment__ThemesDR17 => "Topic :: Desktop Environment :: Window Managers :: Enlightenment :: Themes DR17",
            Classifier::Topic__DesktopEnvironment__WindowManagers__FVWM => "Topic :: Desktop Environment :: Window Managers :: FVWM",
            _ => self.as_str_block_e(),
        }
    }

    /// One stretch of the rendering table; later ranks fall through.
    fn as_str_block_e(&self) -> (r: &'static str)
        requires
            self.rank() >= 600,
        ensures
            r@ == self.tag(),
    {
        match self {
            Classifier::Topic__DesktopEnvironment__WindowManagers__FVWM__Themes => "Topic :: Desktop Environment :: Window Managers :: FVWM :: Themes",
            Classifier::Topic__DesktopEnvironment__WindowManagers__Fluxbox => "Topic :: Desktop Environment :: Window Managers :: Fluxbox",
            Classifier::Topic__DesktopEnvironment__WindowManagers__Fluxbox__Themes => "Topic :: Desktop Environment :: Window Managers :: Fluxbox :: Themes",
            Classifier::Topic__DesktopEnvironment__WindowManagers__IceWM => "Topic :: Desktop Environment :: Window Managers :: IceWM",
            Classifier::Topic__DesktopEnvironment__WindowManagers__IceWM__Themes => "Topic :: Desktop Environment :: Window Managers :: IceWM :: Themes",
            Classifier::Topic__DesktopEnvironment__WindowManagers__MetaCity => "Topic :: Desktop Environment :: Window Managers :: MetaCity",
            Classifier::Topic__DesktopEnvironment__WindowManagers__MetaCity__Themes => "Topic :: Desktop Environment :: Window Managers :: MetaCity :: Themes",
            Classifier::Topic__DesktopEnvironment__WindowManagers__Oroborus => "Topic :: Desktop Environment :: Window Managers :: Oroborus",
            Classifier::Topic__DesktopEnvironment__WindowManagers__Oroborus__Themes => "Topic :: Desktop Environment :: Window Managers :: Oroborus :: Themes",
            Classifier::Topic__DesktopEnvironment__WindowManagers__Sawfish => "Topic :: Desktop Environment :: Window Managers :: Sawfish",
            Classifier::Topic__DesktopEnvironment__WindowManagers__Sawfish__Themes0_30 => "Topic :: Desktop Environment :: Window Managers :: Sawfish :: Themes 0.30",
            Classifier::Topic__DesktopEnvironment__WindowManagers__Sawfish__Themespre0_30 => "Topic :: Desktop Environment :: Window Managers :: Sawfish :: Themes pre-0.30",
            Classifier::Topic__DesktopEnvironment__WindowManagers__Waimea => "Topic :: Desktop Environment :: Window Managers :: Waimea",
            Classifier::Topic__DesktopEnvironment__WindowManagers__Waimea__Themes => "Topic :: Desktop Environment :: Window Managers :: Waimea :: Themes",
            Classifier::Topic__DesktopEnvironment__WindowManagers__WindowMaker => "Topic :: Desktop Environment :: Window Managers :: Window Maker",
            Classifier::Topic__DesktopEnvironment__WindowManagers__WindowMaker__Applets => "Topic :: Desktop Environment :: Window Managers :: Window Maker :: Applets",
            Classifier::Topic__DesktopEnvironment__WindowManagers__WindowMaker__Themes => "Topic :: Desktop Environment :: Window Managers :: Window Maker :: Themes",
            Classifier::Topic__DesktopEnvironment__WindowManagers__XFCE => "Topic :: Desktop Environment :: Window Managers :: XFCE",
            Classifier::Topic__DesktopEnvironment__WindowManagers__XFCE__Themes => "Topic :: Desktop Environment :: Window Managers :: XFCE :: Themes",
            Classifier::Topic__Documentation => "Topic :: Documentation",
            Classifier::Topic__Documentation__Sphinx => "Topic :: Documentation :: Sphinx",
            Classifier::Topic__Education => "Topic :: Education",
            Classifier::Topic__Education__ComputerAidedInstructionCAI => "Topic :: Education :: Computer Aided Instruction (CAI)",
            Classifier::Topic__Education__Testing => "Topic :: Education :: Testing",
            Classifier::Topic__FileFormats => "Topic :: File Formats",
            Classifier::Topic__FileFormats__JSON => "Topic :: File Formats :: JSON",
            Classifier::Topic__FileFormats__JSON__JSONSchema => "Topic :: File Formats :: JSON :: JSON Schema",
            Classifier::Topic__GamesEntertainment => "Topic :: Games/Entertainment",
            Classifier::Topic__GamesEntertainment__Arcade => "Topic :: Games/Entertainment :: Arcade",
            Classifier::Topic__GamesEntertainment__BoardGames => "Topic :: Games/Entertainment :: Board Games",
            Classifier::Topic__GamesEntertainment__FirstPersonShooters => "Topic :: Games/Entertainment :: First Person Shooters",
            Classifier::Topic__GamesEntertainment__FortuneCookies => "Topic :: Games/Entertainment :: Fortune Cookies",
            Classifier::Topic__GamesEntertainment__MultiUserDungeonsMUD => "Topic :: Games/Entertainment :: Multi-User Dungeons (MUD)",
            Classifier::Topic__GamesEntertainment__PuzzleGames => "Topic :: Games/Entertainment :: Puzzle Games",
            Classifier::Topic__GamesEntertainment__RealTimeStrategy => "Topic :: Games/Entertainment :: Real Time Strategy",
            Classifier::Topic__GamesEntertainment__RolePlaying => "Topic :: Games/Entertainment :: Role-Playing",
            Classifier::Topic__GamesEntertainment__SideScrollingArcadeGames => "Topic :: Games/Entertainment :: Side-Scrolling/Arcade Games",
            Classifier::Topic__GamesEntertainment__Simulation => "Topic :: Games/Entertainment :: Simulation",
            Classifier::Topic__GamesEntertainment__TurnBasedStrategy => "Topic :: Games/Entertainment :: Turn Based Strategy",
            Classifier::Topic__HomeAutomation => "Topic :: Home Automation",
            Classifier::Topic__Internet => "Topic :: Internet",
            Classifier::Topic__Internet__FileTransferProtocolFTP => "Topic :: Internet :: File Transfer Protocol (FTP)",
            Classifier::Topic__Internet__Finger => "Topic :: Internet :: Finger",
            Classifier::Topic__Internet__LogAnalysis => "Topic :: Internet :: Log Analysis",
            Classifier::Topic__Internet__NameServiceDNS => "Topic :: Internet :: Name Service (DNS)",
            Classifier::Topic__Internet__ProxyServers => "Topic :: Internet :: Proxy Servers",
            Classifier::Topic__Internet__WAP => "Topic :: Internet :: WAP",
            Classifier::Topic__Internet__WWWHTTP => "Topic :: Internet :: WWW/HTTP",
            Classifier::Topic__Internet__WWWHTTP__Browsers => "Topic :: Internet :: WWW/HTTP :: Browsers",
            Classifier::Topic__Internet__WWWHTTP__DynamicContent => "Topic :: Internet :: WWW/HTTP :: Dynamic Content",
            Classifier::Topic__Internet__WWWHTTP__DynamicContent__CGIToolsLibraries => "Topic :: Internet :: WWW/HTTP :: Dynamic Content :: CGI Tools/Libraries",
            Classifier::Topic__Internet__WWWHTTP__DynamicContent__ContentManagementSystem => "Topic :: Internet :: WWW/HTTP :: Dynamic Content :: Content Management System",
            Classifier::Topic__Internet__WWWHTTP__DynamicContent__MessageBoards => "Topic :: Internet :: WWW/HTTP :: Dynamic Content :: Message Boards",
            Classifier::Topic__Internet__WWWHTTP__DynamicContent__NewsDiary => "Topic :: Internet :: WWW/HTTP :: Dynamic Content :: News/Diary",
            Classifier::Topic__Internet__WWWHTTP__DynamicContent__PageCounters => "Topic :: Internet :: WWW/HTTP :: Dynamic Content :: Page Counters",
            Classifier::Topic__Internet__WWWHTTP__DynamicContent__Wiki => "Topic :: Internet :: WWW/HTTP :: Dynamic Content :: Wiki",
            Classifier::Topic__Internet__WWWHTTP__HTTPServers => "Topic :: Internet :: WWW/HTTP :: HTTP Servers",
            Classifier::Topic__Internet__WWWHTTP__IndexingSearch => "Topic :: Internet :: WWW/HTTP :: Indexing/Search",
            Classifier::Topic__Internet__WWWHTTP__Session => "Topic :: Internet :: WWW/HTTP :: Session",
            Classifier::Topic__Internet__WWWHTTP__SiteManagement => "Topic :: Internet :: WWW/HTTP :: Site Management",
            Classifier::Topic__Internet__WWWHTTP__SiteManagement__LinkChecking => "Topic :: Internet :: WWW/HTTP :: Site Management :: Link Checking",
            Classifier::Topic__Internet__WWWHTTP__WSGI => "Topic :: Internet :: WWW/HTTP :: WSGI",
            Classifier::Topic__Internet__WWWHTTP__WSGI__Application => "Topic :: Internet :: WWW/HTTP :: WSGI :: Application",
            Classifier::Topic__Internet__WWWHTTP__WSGI__Middleware => "Topic :: Internet :: WWW/HTTP :: WSGI :: Middleware",
            Classifier::Topic__Internet__WWWHTTP__WSGI__Server => "Topic :: Internet :: WWW/HTTP :: WSGI :: Server",
            Classifier::Topic__Internet__XMPP => "Topic :: Internet :: XMPP",
            Classifier::Topic__Internet__Z39_50 => "Topic :: Internet :: Z39.50",
            Classifier::Topic__Multimedia => "Topic :: Multimedia",
            Classifier::Topic__Multimedia__Graphics => "Topic :: Multimedia :: Graphics",
            Classifier::Topic__Multimedia__Graphics__3DModeling => "Topic :: Multimedia :: Graphics :: 3D Modeling",
            Classifier::Topic__Multimedia__Graphics__3DRendering => "Topic :: Multimedia :: Graphics :: 3D Rendering",
            Classifier::Topic__Multimedia__Graphics__Capture => "Topic :: Multimedia :: Graphics :: Capture",
            Classifier::Topic__Multimedia__Graphics__Capture__DigitalCamera => "Topic :: Multimedia :: Graphics :: Capture :: Digital Camera",
            Classifier::Topic__Multimedia__Graphics__Capture__Scanners => "Topic :: Multimedia :: Graphics :: Capture :: Scanners",
            Classifier::Topic__Multimedia__Graphics__Capture__ScreenCapture => "Topic :: Multimedia :: Graphics :: Capture :: Screen Capture",
            Classifier::Topic__Multimedia__Graphics__Editors => "Topic :: Multimedia :: Graphics :: Editors",
            Classifier::Topic__Multimedia__Graphics__Editors__RasterBased => "Topic :: Multimedia :: Graphics :: Editors :: Raster-Based",
            Classifier::Topic__Multimedia__Graphics__Editors__VectorBased => "Topic :: Multimedia :: Graphics :: Editors :: Vector-Based",
            Classifier::Topic__Multimedia__Graphics__GraphicsConversion => "Topic :: Multimedia :: Graphics :: Graphics Conversion",
            Classifier::Topic__Multimedia__Graphics__Presentation => "Topic :: Multimedia :: Graphics :: Presentation",
            Classifier::Topic__Multimedia__Graphics__Viewers => "Topic :: Multimedia :: Graphics :: Viewers",
            Classifier::Topic__Multimedia__SoundAudio => "Topic :: Multimedia :: Sound/Audio",
            Classifier::Topic__Multimedia__SoundAudio__Analysis => "Topic :: Multimedia :: Sound/Audio :: Analysis",
            Classifier::Topic__Multimedia__SoundAudio__CDAudio => "Topic :: Multimedia :: Sound/Audio :: CD Audio",
            Classifier::Topic__Multimedia__SoundAudio__CDAudio__CDPlaying => "Topic :: Multimedia :: Sound/Audio :: CD Audio :: CD Playing",
            Classifier::Topic__Multimedia__SoundAudio__CDAudio__CDRipping => "Topic :: Multimedia :: Sound/Audio :: CD Audio :: CD Ripping",
            Classifier::Topic__Multimedia__SoundAudio__CDAudio__CDWriting => "Topic :: Multimedia :: Sound/Audio :: CD Audio :: CD Writing",
            Classifier::Topic__Multimedia__SoundAudio__CaptureRecording => "Topic :: Multimedia :: Sound/Audio :: Capture/Recording",
            Classifier::Topic__Multimedia__SoundAudio__Conversion => "Topic :: Multimedia :: Sound/Audio :: Conversion",
            Classifier::Topic__Multimedia__SoundAudio__Editors => "Topic :: Multimedia :: Sound/Audio :: Editors",
            Classifier::Topic__Multimedia__SoundAudio__MIDI => "Topic :: Multimedia :: Sound/Audio :: MIDI",
            Classifier::Topic__Multimedia__SoundAudio__Mixers => "Topic :: Multimedia :: Sound/Audio :: Mixers",
            Classifier::Topic__Multimedia__SoundAudio__Players => "Topic :: Multimedia :: Sound/Audio :: Players",
            Classifier::Topic__Multimedia__SoundAudio__Players__MP3 => "Topic :: Multimedia :: Sound/Audio :: Players :: MP3",
            Classifier::Topic__Multimedia__SoundAudio__SoundSynthesis => "Topic :: Multimedia :: Sound/Audio :: Sound Synthesis",
            Classifier::Topic__Multimedia__SoundAudio__Speech => "Topic :: Multimedia :: Sound/Audio :: Speech",
            Classifier::Topic__Multimedia__Video => "Topic :: Multimedia :: Video",
            Classifier::Topic__Multimedia__Video__Capture => "Topic :: Multimedia :: Video :: Capture",
            Classifier::Topic__Multimedia__Video__Conversion => "Topic :: Multimedia :: Video :: Conversion",
            Classifier::Topic__Multimedia__Video__Display => "Topic :: Multimedia :: Video :: Display",
            Classifier::Topic__Multimedia__Video__NonLinearEditor => "Topic :: Multimedia :: Video :: Non-Linear Editor",
            Classifier::Topic__OfficeBusiness => "Topic :: Office/Business",
            Classifier::Topic__OfficeBusiness__Financial => "Topic :: Office/Business :: Financial",
            Classifier::Topic__OfficeBusiness__Financial__Accounting => "Topic :: Office/Business :: Financial :: Accounting",
            Classifier::Topic__OfficeBusiness__Financial__Investment => "Topic :: Office/Business :: Financial :: Investment",
            Classifier::Topic__OfficeBusiness__Financial__PointOfSale => "Topic :: Office/Business :: Financial :: Point-Of-Sale",
            Classifier::Topic__OfficeBusiness__Financial__Spreadsheet => "Topic :: Office/Business :: Financial :: Spreadsheet",
            Classifier::Topic__OfficeBusiness__Groupware => "Topic :: Office/Business :: Groupware",
            Classifier::Topic__OfficeBusiness__NewsDiary => "Topic :: Office/Business :: News/Diary",
            Classifier::Topic__OfficeBusiness__OfficeSuites => "Topic :: Office/Business :: Office Suites",
            Classifier::Topic__OfficeBusiness__Scheduling => "Topic :: Office/Business :: Scheduling",
            Classifier::Topic__OtherNonlistedTopic => "Topic :: Other/Nonlisted Topic",
            Classifier::Topic__Printing => "Topic :: Printing",
            Classifier::Topic__Religion => "Topic :: Religion",
            Classifier::Topic__ScientificEngineering => "Topic :: Scientific/Engineering",
            Classifier::Topic__ScientificEngineering__ArtificialIntelligence => "Topic :: Scientific/Engineering :: Artificial Intelligence",
            Classifier::Topic__ScientificEngineering__ArtificialLife => "Topic :: Scientific/Engineering :: Artificial Life",
            Classifier::Topic__ScientificEngineering__Astronomy => "Topic :: Scientific/Engineering :: Astronomy",
            Classifier::Topic__ScientificEngineering__AtmosphericScience => "Topic :: Scientific/Engineering :: Atmospheric Science",
            Classifier::Topic__ScientificEngineering__BioInformatics => "Topic :: Scientific/Engineering :: Bio-Informatics",
            Classifier::Topic__ScientificEngineering__Chemistry => "Topic :: Scientific/Engineering :: Chemistry",
            Classifier::Topic__ScientificEngineering__ElectronicDesignAutomationEDA => "Topic :: Scientific/Engineering :: Electronic Design Automation (EDA)",
            Classifier::Topic__ScientificEngineering__GIS => "Topic :: Scientific/Engineering :: GIS",
            Classifier::Topic__ScientificEngineering__HumanMachineInterfaces => "Topic :: Scientific/Engineering :: Human Machine Interfaces",
            Classifier::Topic__ScientificEngineering__Hydrology => "Topic :: Scientific/Engineering :: Hydrology",
            Classifier::Topic__ScientificEngineering__ImageProcessing => "Topic :: Scientific/Engineering :: Image Processing",
            Classifier::Topic__ScientificEngineering__ImageRecognition => "Topic :: Scientific/Engineering :: Image Recognition",
            Classifier::Topic__ScientificEngineering__InformationAnalysis => "Topic :: Scientific/Engineering :: Information Analysis",
            Classifier::Topic__ScientificEngineering__InterfaceEngineProtocolTranslator => "Topic :: Scientific/Engineering :: Interface Engine/Protocol Translator",
            Classifier::Topic__ScientificEngineering__Mathematics => "Topic :: Scientific/Engineering :: Mathematics",
            Classifier::Topic__ScientificEngineering__MedicalScienceApps_ => "Topic :: Scientific/Engineering :: Medical Science Apps.",
            Classifier::Topic__ScientificEngineering__Oceanography => "Topic :: Scientific/Engineering :: Oceanography",
            Classifier::Topic__ScientificEngineering__Physics => "Topic :: Scientific/Engineering :: Physics",
            Classifier::Topic__ScientificEngineering__Visualization => "Topic :: Scientific/Engineering :: Visualization",
            Classifier::Topic__Security => "Topic :: Security",
            Classifier::Topic__Security__Cryptography => "Topic :: Security :: Cryptography",
            Classifier::Topic__Sociology => "Topic :: Sociology",
            Classifier::Topic__Sociology__Genealogy => "Topic :: Sociology :: Genealogy",
            Classifier::Topic__Sociology__History => "Topic :: Sociology :: History",
            Classifier::Topic__SoftwareDevelopment => "Topic :: Software Development",
            Classifier::Topic__SoftwareDevelopment__Assemblers => "Topic :: Software Development :: Assemblers",
            Classifier::Topic__SoftwareDevelopment__BugTracking => "Topic :: Software Development :: Bug Tracking",
            Classifier::Topic__SoftwareDevelopment__BuildTools => "Topic :: Software Development :: Build Tools",
            Classifier::Topic__SoftwareDevelopment__CodeGenerators => "Topic :: Software Development :: Code Generators",
            Classifier::Topic__SoftwareDevelopment__Compilers => "Topic :: Software Development :: Compilers",
            Classifier::Topic__SoftwareDevelopment__Debuggers => "Topic :: Software Development :: Debuggers",
            Classifier::Topic__SoftwareDevelopment__Disassemblers => "Topic :: Software Development :: Disassemblers",
            Classifier::Topic__SoftwareDevelopment__Documentation => "Topic :: Software Development :: Documentation",
            Classifier::Topic__SoftwareDevelopment__EmbeddedSystems => "Topic :: Software Development :: Embedded Systems",
            Classifier::Topic__SoftwareDevelopment__EmbeddedSystems__ControllerAreaNetworkCAN => "Topic :: Software Development :: Embedded Systems :: Controller Area Network (CAN)",
            _ => self.as_str_block_f(),
        }
    }

    /// One stretch of the rendering table; later ranks fall through.
    fn as_str_block_f(&self) -> (r: &'static str)
        requires
            self.rank() >= 750,
        ensures
            r@ == self.tag(),
    {
        match self {
            Classifier::Topic__SoftwareDevelopment__EmbeddedSystems__ControllerAreaNetworkCAN__CANopen => "Topic :: Software Development :: Embedded Systems :: Controller Area Network (CAN) :: CANopen",
            Classifier::Topic__SoftwareDevelopment__EmbeddedSystems__ControllerAreaNetworkCAN__J1939 => "Topic :: Software Development :: Embedded Systems :: Controller Area Network (CAN) :: J1939",
            Classifier::Topic__SoftwareDevelopment__Internationalization => "Topic :: Software Development :: Internationalization",
            Classifier::Topic__SoftwareDevelopment__Interpreters => "Topic :: Software Development :: Interpreters",
            Classifier::Topic__SoftwareDevelopment__Libraries => "Topic :: Software Development :: Libraries",
            Classifier::Topic__SoftwareDevelopment__Libraries__ApplicationFrameworks => "Topic :: Software Development :: Libraries :: Application Frameworks",
            Classifier::Topic__SoftwareDevelopment__Libraries__JavaLibraries => "Topic :: Software Development :: Libraries :: Java Libraries",
            Classifier::Topic__SoftwareDevelopment__Libraries__PHPClasses => "Topic :: Software Development :: Libraries :: PHP Classes",
            Classifier::Topic__SoftwareDevelopment__Libraries__PerlModules => "Topic :: Software Development :: Libraries :: Perl Modules",
            Classifier::Topic__SoftwareDevelopment__Libraries__PikeModules => "Topic :: Software Development :: Libraries :: Pike Modules",
            Classifier::Topic__SoftwareDevelopment__Libraries__PythonModules => "Topic :: Software Development :: Libraries :: Python Modules",
            Classifier::Topic__SoftwareDevelopment__Libraries__RubyModules => "Topic :: Software Development :: Libraries :: Ruby Modules",
            Classifier::Topic__SoftwareDevelopment__Libraries__TclExtensions => "Topic :: Software Development :: Libraries :: Tcl Extensions",
            Classifier::Topic__SoftwareDevelopment__Libraries__pygame => "Topic :: Software Development :: Libraries :: pygame",
            Classifier::Topic__SoftwareDevelopment__Localization => "Topic :: Software Development :: Localization",
            Classifier::Topic__SoftwareDevelopment__ObjectBrokering => "Topic :: Software Development :: Object Brokering",
            Classifier::Topic__SoftwareDevelopment__ObjectBrokering__CORBA => "Topic :: Software Development :: Object Brokering :: CORBA",
            Classifier::Topic__SoftwareDevelopment__Preprocessors => "Topic :: Software Development :: Pre-processors",
            Classifier::Topic__SoftwareDevelopment__QualityAssurance => "Topic :: Software Development :: Quality Assurance",
            Classifier::Topic__SoftwareDevelopment__Testing => "Topic :: Software Development :: Testing",
            Classifier::Topic__SoftwareDevelopment__Testing__Acceptance => "Topic :: Software Development :: Testing :: Acceptance",
            Classifier::Topic__SoftwareDevelopment__Testing__BDD => "Topic :: Software Development :: Testing :: BDD",
            Classifier::Topic__SoftwareDevelopment__Testing__Mocking => "Topic :: Software Development :: Testing :: Mocking",
            Classifier::Topic__SoftwareDevelopment__Testing__TrafficGeneration => "Topic :: Software Development :: Testing :: Traffic Generation",
            Classifier::Topic__SoftwareDevelopment__Testing__Unit => "Topic :: Software Development :: Testing :: Unit",
            Classifier::Topic__SoftwareDevelopment__UserInterfaces => "Topic :: Software Development :: User Interfaces",
            Classifier::Topic__SoftwareDevelopment__VersionControl => "Topic :: Software Development :: Version Control",
            Classifier::Topic__SoftwareDevelopment__VersionControl__Bazaar => "Topic :: Software Development :: Version Control :: Bazaar",
            Classifier::Topic__SoftwareDevelopment__VersionControl__CVS => "Topic :: Software Development :: Version Control :: CVS",
            Classifier::Topic__SoftwareDevelopment__VersionControl__Git => "Topic :: Software Development :: Version Control :: Git",
            Classifier::Topic__SoftwareDevelopment__VersionControl__Mercurial => "Topic :: Software Development :: Version Control :: Mercurial",
            Classifier::Topic__SoftwareDevelopment__VersionControl__RCS => "Topic :: Software Development :: Version Control :: RCS",
            Classifier::Topic__SoftwareDevelopment__VersionControl__SCCS => "Topic :: Software Development :: Version Control :: SCCS",
            Classifier::Topic__SoftwareDevelopment__WidgetSets => "Topic :: Software Development :: Widget Sets",
            Classifier::Topic__System => "Topic :: System",
            Classifier::Topic__System__Archiving => "Topic :: System :: Archiving",
            Classifier::Topic__System__Archiving__Backup => "Topic :: System :: Archiving :: Backup",
            Classifier::Topic__System__Archiving__Compression => "Topic :: System :: Archiving :: Compression",
            Classifier::Topic__System__Archiving__Mirroring => "Topic :: System :: Archiving :: Mirroring",
            Classifier::Topic__System__Archiving__Packaging => "Topic :: System :: Archiving :: Packaging",
            Classifier::Topic__System__Benchmark => "Topic :: System :: Benchmark",
            Classifier::Topic__System__Boot => "Topic :: System :: Boot",
            Classifier::Topic__System__Boot__Init => "Topic :: System :: Boot :: Init",
            Classifier::Topic__System__Clustering => "Topic :: System :: Clustering",
            Classifier::Topic__System__ConsoleFonts => "Topic :: System :: Console Fonts",
            Classifier::Topic__System__DistributedComputing => "Topic :: System :: Distributed Computing",
            Classifier::Topic__System__Emulators => "Topic :: System :: Emulators",
            Classifier::Topic__System__Filesystems => "Topic :: System :: Filesystems",
            Classifier::Topic__System__Hardware => "Topic :: System :: Hardware",
            Classifier::Topic__System__Hardware__HardwareDrivers => "Topic :: System :: Hardware :: Hardware Drivers",
            Classifier::Topic__System__Hardware__Mainframes => "Topic :: System :: Hardware :: Mainframes",
            Classifier::Topic__System__Hardware__SymmetricMultiprocessing => "Topic :: System :: Hardware :: Symmetric Multi-processing",
            Classifier::Topic__System__Hardware__UniversalSerialBusUSB => "Topic :: System :: Hardware :: Universal Serial Bus (USB)",
            Classifier::Topic__System__Hardware__UniversalSerialBusUSB__Audio => "Topic :: System :: Hardware :: Universal Serial Bus (USB) :: Audio",
            Classifier::Topic__System__Hardware__UniversalSerialBusUSB__AudioVideoAV => "Topic :: System :: Hardware :: Universal Serial Bus (USB) :: Audio/Video (AV)",
            Classifier::Topic__System__Hardware__UniversalSerialBusUSB__CommunicationsDeviceClassCDC => "Topic :: System :: Hardware :: Universal Serial Bus (USB) :: Communications Device Class (CDC)",
            Classifier::Topic__System__Hardware__UniversalSerialBusUSB__DiagnosticDevice => "Topic :: System :: Hardware :: Universal Serial Bus (USB) :: Diagnostic Device",
            Classifier::Topic__System__Hardware__UniversalSerialBusUSB__Hub => "Topic :: System :: Hardware :: Universal Serial Bus (USB) :: Hub",
            Classifier::Topic__System__Hardware__UniversalSerialBusUSB__HumanInterfaceDeviceHID => "Topic :: System :: Hardware :: Universal Serial Bus (USB) :: Human Interface Device (HID)",
            Classifier::Topic__System__Hardware__UniversalSerialBusUSB__MassStorage => "Topic :: System :: Hardware :: Universal Serial Bus (USB) :: Mass Storage",
            Classifier::Topic__System__Hardware__UniversalSerialBusUSB__Miscellaneous => "Topic :: System :: Hardware :: Universal Serial Bus (USB) :: Miscellaneous",
            Classifier::Topic__System__Hardware__UniversalSerialBusUSB__Printer => "Topic :: System :: Hardware :: Universal Serial Bus (USB) :: Printer",
            Classifier::Topic__System__Hardware__UniversalSerialBusUSB__SmartCard => "Topic :: System :: Hardware :: Universal Serial Bus (USB) :: Smart Card",
            Classifier::Topic__System__Hardware__UniversalSerialBusUSB__Vendor => "Topic :: System :: Hardware :: Universal Serial Bus (USB) :: Vendor",
            Classifier::Topic__System__Hardware__UniversalSerialBusUSB__VideoUVC => "Topic :: System :: Hardware :: Universal Serial Bus (USB) :: Video (UVC)",
            Classifier::Topic__System__Hardware__UniversalSerialBusUSB__WirelessController => "Topic :: System :: Hardware :: Universal Serial Bus (USB) :: Wireless Controller",
            Classifier::Topic__System__InstallationSetup => "Topic :: System :: Installation/Setup",
            Classifier::Topic__System__Logging => "Topic :: System :: Logging",
            Classifier::Topic__System__Monitoring => "Topic :: System :: Monitoring",
            Classifier::Topic__System__Networking => "Topic :: System :: Networking",
            Classifier::Topic__System__Networking__Firewalls => "Topic :: System :: Networking :: Firewalls",
            Classifier::Topic__System__Networking__Monitoring => "Topic :: System :: Networking :: Monitoring",
            Classifier::Topic__System__Networking__Monitoring__HardwareWatchdog => "Topic :: System :: Networking :: Monitoring :: Hardware Watchdog",
            Classifier::Topic__System__Networking__TimeSynchronization => "Topic :: System :: Networking :: Time Synchronization",
            Classifier::Topic__System__OperatingSystem => "Topic :: System :: Operating System",
            Classifier::Topic__System__OperatingSystemKernels => "Topic :: System :: Operating System Kernels",
            Classifier::Topic__System__OperatingSystemKernels__BSD => "Topic :: System :: Operating System Kernels :: BSD",
            Classifier::Topic__System__OperatingSystemKernels__GNUHurd => "Topic :: System :: Operating System Kernels :: GNU Hurd",
            Classifier::Topic__System__OperatingSystemKernels__Linux => "Topic :: System :: Operating System Kernels :: Linux",
            Classifier::Topic__System__PowerUPS => "Topic :: System :: Power (UPS)",
            Classifier::Topic__System__RecoveryTools => "Topic :: System :: Recovery Tools",
            Classifier::Topic__System__Shells => "Topic :: System :: Shells",
            Classifier::Topic__System__SoftwareDistribution => "Topic :: System :: Software Distribution",
            Classifier::Topic__System__SystemShells => "Topic :: System :: System Shells",
            Classifier::Topic__System__SystemsAdministration => "Topic :: System :: Systems Administration",
            Classifier::Topic__System__SystemsAdministration__AuthenticationDirectory => "Topic :: System :: Systems Administration :: Authentication/Directory",
            Classifier::Topic__System__SystemsAdministration__AuthenticationDirectory__LDAP => "Topic :: System :: Systems Administration :: Authentication/Directory :: LDAP",
            Classifier::Topic__System__SystemsAdministration__AuthenticationDirectory__NIS => "Topic :: System :: Systems Administration :: Authentication/Directory :: NIS",
            Classifier::Topic__Terminals => "Topic :: Terminals",
            Classifier::Topic__Terminals__Serial => "Topic :: Terminals :: Serial",
            Classifier::Topic__Terminals__Telnet => "Topic :: Terminals :: Telnet",
            Classifier::Topic__Terminals__TerminalEmulatorsXTerminals => "Topic :: Terminals :: Terminal Emulators/X Terminals",
            Classifier::Topic__TextEditors => "Topic :: Text Editors",
            Classifier::Topic__TextEditors__Documentation => "Topic :: Text Editors :: Documentation",
            Classifier::Topic__TextEditors__Emacs => "Topic :: Text Editors :: Emacs",
            Classifier::Topic__TextEditors__IntegratedDevelopmentEnvironmentsIDE => "Topic :: Text Editors :: Integrated Development Environments (IDE)",
            Classifier::Topic__TextEditors__TextProcessing => "Topic :: Text Editors :: Text Processing",
            Classifier::Topic__TextEditors__WordProcessors => "Topic :: Text Editors :: Word Processors",
            Classifier::Topic__TextProcessing => "Topic :: Text Processing",
            Classifier::Topic__TextProcessing__Filters => "Topic :: Text Processing :: Filters",
            Classifier::Topic__TextProcessing__Fonts => "Topic :: Text Processing :: Fonts",
            Classifier::Topic__TextProcessing__General => "Topic :: Text Processing :: General",
            Classifier::Topic__TextProcessing__Indexing => "Topic :: Text Processing :: Indexing",
            Classifier::Topic__TextProcessing__Linguistic => "Topic :: Text Processing :: Linguistic",
            Classifier::Topic__TextProcessing__Markup => "Topic :: Text Processing :: Markup",
            Classifier::Topic__TextProcessing__Markup__HTML => "Topic :: Text Processing :: Markup :: HTML",
            Classifier::Topic__TextProcessing__Markup__LaTeX => "Topic :: Text Processing :: Markup :: LaTeX",
            Classifier::Topic__TextProcessing__Markup__Markdown => "Topic :: Text Processing :: Markup :: Markdown",
            Classifier::Topic__TextProcessing__Markup__SGML => "Topic :: Text Processing :: Markup :: SGML",
            Classifier::Topic__TextProcessing__Markup__VRML => "Topic :: Text Processing :: Markup :: VRML",
            Classifier::Topic__TextProcessing__Markup__XML => "Topic :: Text Processing :: Markup :: XML",
            Classifier::Topic__TextProcessing__Markup__reStructuredText => "Topic :: Text Processing :: Markup :: reStructuredText",
            Classifier::Topic__Utilities => "Topic :: Utilities",
            Classifier::Typing__StubsOnly => "Typing :: Stubs Only",
            Classifier::Typing__Typed => "Typing :: Typed",
            _ => unreached(),
        }
    }
}

} // verus!
