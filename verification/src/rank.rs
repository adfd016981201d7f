use vstd::prelude::*;

use crate::catalog::CLASSIFIER_COUNT;
use crate::catalog::Classifier;

verus! {

impl Classifier {
    /// Position of this classifier's tag in the lexicographic order of all
    /// tags of the catalog.
    pub open spec fn rank(self) -> int {
        self.rank_block_a()
    }

    /// One stretch of the rank table; other classifiers fall through.
    pub open spec fn rank_block_a(self) -> int {
        match self {
            Classifier::DevelopmentStatus__1Planning => 0,
            Classifier::DevelopmentStatus__2PreAlpha => 1,
            Classifier::DevelopmentStatus__3Alpha => 2,
            Classifier::DevelopmentStatus__4Beta => 3,
            Classifier::DevelopmentStatus__5ProductionStable => 4,
            Classifier::DevelopmentStatus__6Mature => 5,
            Classifier::DevelopmentStatus__7Inactive => 6,
            Classifier::Environment__Console => 7,
            Classifier::Environment__Console__Curses => 8,
            Classifier::Environment__Console__Framebuffer => 9,
            Classifier::Environment__Console__Newt => 10,
            Classifier::Environment__Console__svgalib => 11,
            Classifier::Environment__GPU => 12,
            Classifier::Environment__GPU__NVIDIACUDA => 13,
            Classifier::Environment__GPU__NVIDIACUDA__1_0 => 14,
            Classifier::Environment__GPU__NVIDIACUDA__1_1 => 15,
            Classifier::Environment__GPU__NVIDIACUDA__10_0 => 16,
            Classifier::Environment__GPU__NVIDIACUDA__10_1 => 17,
            Classifier::Environment__GPU__NVIDIACUDA__10_2 => 18,
            Classifier::Environment__GPU__NVIDIACUDA__11 => 19,
            Classifier::Environment__GPU__NVIDIACUDA__11_0 => 20,
            Classifier::Environment__GPU__NVIDIACUDA__11_1 => 21,
            Classifier::Environment__GPU__NVIDIACUDA__11_2 => 22,
            Classifier::Environment__GPU__NVIDIACUDA__11_3 => 23,
            Classifier::Environment__GPU__NVIDIACUDA__11_4 => 24,
            Classifier::Environment__GPU__NVIDIACUDA__11_5 => 25,
            Classifier::Environment__GPU__NVIDIACUDA__11_6 => 26,
            Classifier::Environment__GPU__NVIDIACUDA__11_7 => 27,
            Classifier::Environment__GPU__NVIDIACUDA__11_8 => 28,
            Classifier::Environment__GPU__NVIDIACUDA__12 => 29,
            Classifier::Environment__GPU__NVIDIACUDA__12__12_0 => 30,
            Classifier::Environment__GPU__NVIDIACUDA__12__12_1 => 31,
            Classifier::Environment__GPU__NVIDIACUDA__12__12_2 => 32,
            Classifier::Environment__GPU__NVIDIACUDA__12__12_3 => 33,
            Classifier::Environment__GPU__NVIDIACUDA__12__12_4 => 34,
            Classifier::Environment__GPU__NVIDIACUDA__12__12_5 => 35,
            Classifier::Environment__GPU__NVIDIACUDA__2_0 => 36,
            Classifier::Environment__GPU__NVIDIACUDA__2_1 => 37,
            Classifier::Environment__GPU__NVIDIACUDA__2_2 => 38,
            Classifier::Environment__GPU__NVIDIACUDA__2_3 => 39,
            Classifier::Environment__GPU__NVIDIACUDA__3_0 => 40,
            Classifier::Environment__GPU__NVIDIACUDA__3_1 => 41,
            Classifier::Environment__GPU__NVIDIACUDA__3_2 => 42,
            Classifier::Environment__GPU__NVIDIACUDA__4_0 => 43,
            Classifier::Environment__GPU__NVIDIACUDA__4_1 => 44,
            Classifier::Environment__GPU__NVIDIACUDA__4_2 => 45,
            Classifier::Environment__GPU__NVIDIACUDA__5_0 => 46,
            Classifier::Environment__GPU__NVIDIACUDA__5_5 => 47,
            Classifier::Environment__GPU__NVIDIACUDA__6_0 => 48,
            Classifier::Environment__GPU__NVIDIACUDA__6_5 => 49,
            Classifier::Environment__GPU__NVIDIACUDA__7_0 => 50,
            Classifier::Environment__GPU__NVIDIACUDA__7_5 => 51,
            Classifier::Environment__GPU__NVIDIACUDA__8_0 => 52,
            Classifier::Environment__GPU__NVIDIACUDA__9_0 => 53,
            Classifier::Environment__GPU__NVIDIACUDA__9_1 => 54,
            Classifier::Environment__GPU__NVIDIACUDA__9_2 => 55,
            Classifier::Environment__HandheldsPDAs => 56,
            Classifier::Environment__MacOSX => 57,
            Classifier::Environment__MacOSX__Aqua => 58,
            Classifier::Environment__MacOSX__Carbon => 59,
            Classifier::Environment__MacOSX__Cocoa => 60,
            Classifier::Environment__NoInputOutputDaemon => 61,
            Classifier::Environment__OpenStack => 62,
            Classifier::Environment__OtherEnvironment => 63,
            Classifier::Environment__Plugins => 64,
            Classifier::Environment__WebEnvironment => 65,
            Classifier::Environment__WebEnvironment__Buffet => 66,
            Classifier::Environment__WebEnvironment__Mozilla => 67,
            Classifier::Environment__WebEnvironment__ToscaWidgets => 68,
            Classifier::Environment__WebAssembly => 69,
            Classifier::Environment__WebAssembly__Emscripten => 70,
            Classifier::Environment__WebAssembly__WASI => 71,
            Classifier::Environment__Win32MSWindows => 72,
            Classifier::Environment__X11Applications => 73,
            Classifier::Environment__X11Applications__GTK => 74,
            Classifier::Environment__X11Applications__Gnome => 75,
            Classifier::Environment__X11Applications__KDE => 76,
            Classifier::Environment__X11Applications__Qt => 77,
            Classifier::Framework__AWSCDK => 78,
            Classifier::Framework__AWSCDK__1 => 79,
            Classifier::Framework__AWSCDK__2 => 80,
            Classifier::Framework__AiiDA => 81,
            Classifier::Framework__Ansible => 82,
            Classifier::Framework__AnyIO => 83,
            Classifier::Framework__ApacheAirflow => 84,
            Classifier::Framework__ApacheAirflow__Provider => 85,
            Classifier::Framework__AsyncIO => 86,
            Classifier::Framework__BEAT => 87,
            Classifier::Framework__BFG => 88,
            Classifier::Framework__Bob => 89,
            Classifier::Framework__Bottle => 90,
            Classifier::Framework__Buildout => 91,
            Classifier::Framework__Buildout__Extension => 92,
            Classifier::Framework__Buildout__Recipe => 93,
            Classifier::Framework__CastleCMS => 94,
            Classifier::Framework__CastleCMS__Theme => 95,
            Classifier::Framework__Celery => 96,
            Classifier::Framework__Chandler => 97,
            Classifier::Framework__CherryPy => 98,
            Classifier::Framework__CubicWeb => 99,
            Classifier::Framework__Dash => 100,
            Classifier::Framework__Datasette => 101,
            Classifier::Framework__Django => 102,
            Classifier::Framework__Django__1 => 103,
            Classifier::Framework__Django__1_10 => 104,
            Classifier::Framework__Django__1_11 => 105,
            Classifier::Framework__Django__1_4 => 106,
            Classifier::Framework__Django__1_5 => 107,
            Classifier::Framework__Django__1_6 => 108,
            Classifier::Framework__Django__1_7 => 109,
            Classifier::Framework__Django__1_8 => 110,
            Classifier::Framework__Django__1_9 => 111,
            Classifier::Framework__Django__2 => 112,
            Classifier::Framework__Django__2_0 => 113,
            Classifier::Framework__Django__2_1 => 114,
            Classifier::Framework__Django__2_2 => 115,
            Classifier::Framework__Django__3 => 116,
            Classifier::Framework__Django__3_0 => 117,
            Classifier::Framework__Django__3_1 => 118,
            Classifier::Framework__Django__3_2 => 119,
            Classifier::Framework__Django__4 => 120,
            Classifier::Framework__Django__4_0 => 121,
            Classifier::Framework__Django__4_1 => 122,
            Classifier::Framework__Django__4_2 => 123,
            Classifier::Framework__Django__5 => 124,
            Classifier::Framework__Django__5_0 => 125,
            Classifier::Framework__Django__5_1 => 126,
            Classifier::Framework__Django__5_2 => 127,
            Classifier::Framework__DjangoCMS => 128,
            Classifier::Framework__DjangoCMS__3_10 => 129,
            Classifier::Framework__DjangoCMS__3_11 => 130,
            Classifier::Framework__DjangoCMS__3_4 => 131,
            Classifier::Framework__DjangoCMS__3_5 => 132,
            Classifier::Framework__DjangoCMS__3_6 => 133,
            Classifier::Framework__DjangoCMS__3_7 => 134,
            Classifier::Framework__DjangoCMS__3_8 => 135,
            Classifier::Framework__DjangoCMS__3_9 => 136,
            Classifier::Framework__DjangoCMS__4_0 => 137,
            Classifier::Framework__DjangoCMS__4_1 => 138,
            Classifier::Framework__FastAPI => 139,
            Classifier::Framework__Flake8 => 140,
            Classifier::Framework__Flask => 141,
            Classifier::Framework__Hatch => 142,
            Classifier::Framework__Hypothesis => 143,
            Classifier::Framework__IDLE => 144,
            Classifier::Framework__IPython => 145,
            Classifier::Framework__Jupyter => 146,
            Classifier::Framework__Jupyter__JupyterLab => 147,
            Classifier::Framework__Jupyter__JupyterLab__1 => 148,
            Classifier::Framework__Jupyter__JupyterLab__2 => 149,
            _ => self.rank_block_b(),
        }
    }

    /// One stretch of the rank table; other classifiers fall through.
    pub open spec fn rank_block_b(self) -> int {
        match self {
            Classifier::Framework__Jupyter__JupyterLab__3 => 150,
            Classifier::Framework__Jupyter__JupyterLab__4 => 151,
            Classifier::Framework__Jupyter__JupyterLab__Extensions => 152,
            Classifier::Framework__Jupyter__JupyterLab__Extensions__MimeRenderers => 153,
            Classifier::Framework__Jupyter__JupyterLab__Extensions__Prebuilt => 154,
            Classifier::Framework__Jupyter__JupyterLab__Extensions__Themes => 155,
            Classifier::Framework__Kedro => 156,
            Classifier::Framework__Lektor => 157,
            Classifier::Framework__Masonite => 158,
            Classifier::Framework__Matplotlib => 159,
            Classifier::Framework__MkDocs => 160,
            Classifier::Framework__Nengo => 161,
            Classifier::Framework__Odoo => 162,
            Classifier::Framework__Odoo__10_0 => 163,
            Classifier::Framework__Odoo__11_0 => 164,
            Classifier::Framework__Odoo__12_0 => 165,
            Classifier::Framework__Odoo__13_0 => 166,
            Classifier::Framework__Odoo__14_0 => 167,
            Classifier::Framework__Odoo__15_0 => 168,
            Classifier::Framework__Odoo__16_0 => 169,
            Classifier::Framework__Odoo__17_0 => 170,
            Classifier::Framework__Odoo__18_0 => 171,
            Classifier::Framework__Odoo__8_0 => 172,
            Classifier::Framework__Odoo__9_0 => 173,
            Classifier::Framework__OpenTelemetry => 174,
            Classifier::Framework__OpenTelemetry__Distros => 175,
            Classifier::Framework__OpenTelemetry__Exporters => 176,
            Classifier::Framework__OpenTelemetry__Instrumentations => 177,
            Classifier::Framework__Opps => 178,
            Classifier::Framework__Paste => 179,
            Classifier::Framework__Pelican => 180,
            Classifier::Framework__Pelican__Plugins => 181,
            Classifier::Framework__Pelican__Themes => 182,
            Classifier::Framework__Plone => 183,
            Classifier::Framework__Plone__3_2 => 184,
            Classifier::Framework__Plone__3_3 => 185,
            Classifier::Framework__Plone__4_0 => 186,
            Classifier::Framework__Plone__4_1 => 187,
            Classifier::Framework__Plone__4_2 => 188,
            Classifier::Framework__Plone__4_3 => 189,
            Classifier::Framework__Plone__5_0 => 190,
            Classifier::Framework__Plone__5_1 => 191,
            Classifier::Framework__Plone__5_2 => 192,
            Classifier::Framework__Plone__5_3 => 193,
            Classifier::Framework__Plone__6_0 => 194,
            Classifier::Framework__Plone__6_1 => 195,
            Classifier::Framework__Plone__Addon => 196,
            Classifier::Framework__Plone__Core => 197,
            Classifier::Framework__Plone__Distribution => 198,
            Classifier::Framework__Plone__Theme => 199,
            Classifier::Framework__PySimpleGUI => 200,
            Classifier::Framework__PySimpleGUI__4 => 201,
            Classifier::Framework__PySimpleGUI__5 => 202,
            Classifier::Framework__Pycsou => 203,
            Classifier::Framework__Pydantic => 204,
            Classifier::Framework__Pydantic__1 => 205,
            Classifier::Framework__Pydantic__2 => 206,
            Classifier::Framework__Pylons => 207,
            Classifier::Framework__Pyramid => 208,
            Classifier::Framework__Pytest => 209,
            Classifier::Framework__ReviewBoard => 210,
            Classifier::Framework__RobotFramework => 211,
            Classifier::Framework__RobotFramework__Library => 212,
            Classifier::Framework__RobotFramework__Tool => 213,
            Classifier::Framework__Scrapy => 214,
            Classifier::Framework__SetuptoolsPlugin => 215,
            Classifier::Framework__Sphinx => 216,
            Classifier::Framework__Sphinx__Domain => 217,
            Classifier::Framework__Sphinx__Extension => 218,
            Classifier::Framework__Sphinx__Theme => 219,
            Classifier::Framework__Trac => 220,
            Classifier::Framework__Trio => 221,
            Classifier::Framework__Tryton => 222,
            Classifier::Framework__TurboGears => 223,
            Classifier::Framework__TurboGears__Applications => 224,
            Classifier::Framework__TurboGears__Widgets => 225,
            Classifier::Framework__Twisted => 226,
            Classifier::Framework__Wagtail => 227,
            Classifier::Framework__Wagtail__1 => 228,
            Classifier::Framework__Wagtail__2 => 229,
            Classifier::Framework__Wagtail__3 => 230,
            Classifier::Framework__Wagtail__4 => 231,
            Classifier::Framework__Wagtail__5 => 232,
            Classifier::Framework__Wagtail__6 => 233,
            Classifier::Framework__ZODB => 234,
            Classifier::Framework__Zope => 235,
            Classifier::Framework__Zope__2 => 236,
            Classifier::Framework__Zope__3 => 237,
            Classifier::Framework__Zope__4 => 238,
            Classifier::Framework__Zope__5 => 239,
            Classifier::Framework__Zope2 => 240,
            Classifier::Framework__Zope3 => 241,
            Classifier::Framework__aiohttp => 242,
            Classifier::Framework__cocotb => 243,
            Classifier::Framework__napari => 244,
            Classifier::Framework__tox => 245,
            Classifier::IntendedAudience__CustomerService => 246,
            Classifier::IntendedAudience__Developers => 247,
            Classifier::IntendedAudience__Education => 248,
            Classifier::IntendedAudience__EndUsersDesktop => 249,
            Classifier::IntendedAudience__FinancialandInsuranceIndustry => 250,
            Classifier::IntendedAudience__HealthcareIndustry => 251,
            Classifier::IntendedAudience__InformationTechnology => 252,
            Classifier::IntendedAudience__LegalIndustry => 253,
            Classifier::IntendedAudience__Manufacturing => 254,
            Classifier::IntendedAudience__OtherAudience => 255,
            Classifier::IntendedAudience__Religion => 256,
            Classifier::IntendedAudience__ScienceResearch => 257,
            Classifier::IntendedAudience__SystemAdministrators => 258,
            Classifier::IntendedAudience__TelecommunicationsIndustry => 259,
            Classifier::License__AladdinFreePublicLicenseAFPL => 260,
            Classifier::License__CC01_0UniversalCC01_0PublicDomainDedication => 261,
            Classifier::License__CeCILLBFreeSoftwareLicenseAgreementCECILLB => 262,
            Classifier::License__CeCILLCFreeSoftwareLicenseAgreementCECILLC => 263,
            Classifier::License__DFSGapproved => 264,
            Classifier::License__EiffelForumLicenseEFL => 265,
            Classifier::License__FreeForEducationalUse => 266,
            Classifier::License__FreeForHomeUse => 267,
            Classifier::License__FreeToUseButRestricted => 268,
            Classifier::License__Freefornoncommercialuse => 269,
            Classifier::License__FreelyDistributable => 270,
            Classifier::License__Freeware => 271,
            Classifier::License__GUSTFontLicense1_0 => 272,
            Classifier::License__GUSTFontLicense20060930 => 273,
            Classifier::License__NetscapePublicLicenseNPL => 274,
            Classifier::License__NokiaOpenSourceLicenseNOKOS => 275,
            Classifier::License__OSIApproved => 276,
            Classifier::License__OSIApproved__AcademicFreeLicenseAFL => 277,
            Classifier::License__OSIApproved__ApacheSoftwareLicense => 278,
            Classifier::License__OSIApproved__ApplePublicSourceLicense => 279,
            Classifier::License__OSIApproved__ArtisticLicense => 280,
            Classifier::License__OSIApproved__AttributionAssuranceLicense => 281,
            Classifier::License__OSIApproved__BSDLicense => 282,
            Classifier::License__OSIApproved__BlueOakModelLicenseBlueOak1_0_0 => 283,
            Classifier::License__OSIApproved__BoostSoftwareLicense1_0BSL1_0 => 284,
            Classifier::License__OSIApproved__CEACNRSInriaLogicielLibreLicense => 285,
            Classifier::License__OSIApproved__CMULicenseMITCMU => 286,
            Classifier::License__OSIApproved__CommonDevelopmentandDistributionLicense1_0CDDL1_0 => 287,
            Classifier::License__OSIApproved__CommonPublicLicense => 288,
            Classifier::License__OSIApproved__EclipsePublicLicense1_0EPL1_0 => 289,
            Classifier::License__OSIApproved__EclipsePublicLicense2_0EPL2_0 => 290,
            Classifier::License__OSIApproved__EducationalCommunityLicense => 291,
            Classifier::License__OSIApproved__EiffelForumLicense => 292,
            Classifier::License__OSIApproved__EuropeanUnionPublicLicence1_0EUPL1_0 => 293,
            Classifier::License__OSIApproved__EuropeanUnionPublicLicence1_1EUPL1_1 => 294,
            Classifier::License__OSIApproved__EuropeanUnionPublicLicence1_2EUPL1_2 => 295,
            Classifier::License__OSIApproved__GNUAfferoGeneralPublicLicensev3 => 296,
            Classifier::License__OSIApproved__GNUAfferoGeneralPublicLicensev3orlaterAGPLv3plus => 297,
            Classifier::License__OSIApproved__GNUFreeDocumentationLicenseFDL => 298,
            Classifier::License__OSIApproved__GNUGeneralPublicLicenseGPL => 299,
            _ => self.rank_block_c(),
        }
    }

    /// One stretch of the rank table; other classifiers fall through.
    pub open spec fn rank_block_c(self) -> int {
        match self {
            Classifier::License__OSIApproved__GNUGeneralPublicLicensev2GPLv2 => 300,
            Classifier::License__OSIApproved__GNUGeneralPublicLicensev2orlaterGPLv2plus => 301,
            Classifier::License__OSIApproved__GNUGeneralPublicLicensev3GPLv3 => 302,
            Classifier::License__OSIApproved__GNUGeneralPublicLicensev3orlaterGPLv3plus => 303,
            Classifier::License__OSIApproved__GNULesserGeneralPublicLicensev2LGPLv2 => 304,
            Classifier::License__OSIApproved__GNULesserGeneralPublicLicensev2orlaterLGPLv2plus => 305,
            Classifier::License__OSIApproved__GNULesserGeneralPublicLicensev3LGPLv3 => 306,
            Classifier::License__OSIApproved__GNULesserGeneralPublicLicensev3orlaterLGPLv3plus => 307,
            Classifier::License__OSIApproved__GNULibraryorLesserGeneralPublicLicenseLGPL => 308,
            Classifier::License__OSIApproved__HistoricalPermissionNoticeandDisclaimerHPND => 309,
            Classifier::License__OSIApproved__IBMPublicLicense => 310,
            Classifier::License__OSIApproved__ISCLicenseISCL => 311,
            Classifier::License__OSIApproved__IntelOpenSourceLicense => 312,
            Classifier::License__OSIApproved__JabberOpenSourceLicense => 313,
            Classifier::License__OSIApproved__MITLicense => 314,
            Classifier::License__OSIApproved__MITNoAttributionLicenseMIT0 => 315,
            Classifier::License__OSIApproved__MITRECollaborativeVirtualWorkspaceLicenseCVW => 316,
            Classifier::License__OSIApproved__MirOSLicenseMirOS => 317,
            Classifier::License__OSIApproved__MotosotoLicense => 318,
            Classifier::License__OSIApproved__MozillaPublicLicense1_0MPL => 319,
            Classifier::License__OSIApproved__MozillaPublicLicense1_1MPL1_1 => 320,
            Classifier::License__OSIApproved__MozillaPublicLicense2_0MPL2_0 => 321,
            Classifier::License__OSIApproved__MulanPermissiveSoftwareLicensev2MulanPSL2_0 => 322,
            Classifier::License__OSIApproved__NASAOpenSourceAgreementv1_3NASA1_3 => 323,
            Classifier::License__OSIApproved__NethackGeneralPublicLicense => 324,
            Classifier::License__OSIApproved__NokiaOpenSourceLicense => 325,
            Classifier::License__OSIApproved__OpenGroupTestSuiteLicense => 326,
            Classifier::License__OSIApproved__OpenSoftwareLicense3_0OSL3_0 => 327,
            Classifier::License__OSIApproved__PostgreSQLLicense => 328,
            Classifier::License__OSIApproved__PythonLicenseCNRIPythonLicense => 329,
            Classifier::License__OSIApproved__PythonSoftwareFoundationLicense => 330,
            Classifier::License__OSIApproved__QtPublicLicenseQPL => 331,
            Classifier::License__OSIApproved__RicohSourceCodePublicLicense => 332,
            Classifier::License__OSIApproved__SILOpenFontLicense1_1OFL1_1 => 333,
            Classifier::License__OSIApproved__SleepycatLicense => 334,
            Classifier::License__OSIApproved__SunIndustryStandardsSourceLicenseSISSL => 335,
            Classifier::License__OSIApproved__SunPublicLicense => 336,
            Classifier::License__OSIApproved__TheUnlicenseUnlicense => 337,
            Classifier::License__OSIApproved__UniversalPermissiveLicenseUPL => 338,
            Classifier::License__OSIApproved__UniversityofIllinoisNCSAOpenSourceLicense => 339,
            Classifier::License__OSIApproved__VovidaSoftwareLicense1_0 => 340,
            Classifier::License__OSIApproved__W3CLicense => 341,
            Classifier::License__OSIApproved__X_NetLicense => 342,
            Classifier::License__OSIApproved__ZeroClauseBSD0BSD => 343,
            Classifier::License__OSIApproved__ZopePublicLicense => 344,
            Classifier::License__OSIApproved__zliblibpngLicense => 345,
            Classifier::License__OtherProprietaryLicense => 346,
            Classifier::License__PublicDomain => 347,
            Classifier::License__RepozePublicLicense => 348,
            Classifier::NaturalLanguage__Afrikaans => 349,
            Classifier::NaturalLanguage__Arabic => 350,
            Classifier::NaturalLanguage__Basque => 351,
            Classifier::NaturalLanguage__Bengali => 352,
            Classifier::NaturalLanguage__Bosnian => 353,
            Classifier::NaturalLanguage__Bulgarian => 354,
            Classifier::NaturalLanguage__Cantonese => 355,
            Classifier::NaturalLanguage__Catalan => 356,
            Classifier::NaturalLanguage__CatalanValencian => 357,
            Classifier::NaturalLanguage__ChineseSimplified => 358,
            Classifier::NaturalLanguage__ChineseTraditional => 359,
            Classifier::NaturalLanguage__Croatian => 360,
            Classifier::NaturalLanguage__Czech => 361,
            Classifier::NaturalLanguage__Danish => 362,
            Classifier::NaturalLanguage__Dutch => 363,
            Classifier::NaturalLanguage__English => 364,
            Classifier::NaturalLanguage__Esperanto => 365,
            Classifier::NaturalLanguage__Finnish => 366,
            Classifier::NaturalLanguage__French => 367,
            Classifier::NaturalLanguage__Galician => 368,
            Classifier::NaturalLanguage__Georgian => 369,
            Classifier::NaturalLanguage__German => 370,
            Classifier::NaturalLanguage__Greek => 371,
            Classifier::NaturalLanguage__Hebrew => 372,
            Classifier::NaturalLanguage__Hindi => 373,
            Classifier::NaturalLanguage__Hungarian => 374,
            Classifier::NaturalLanguage__Icelandic => 375,
            Classifier::NaturalLanguage__Indonesian => 376,
            Classifier::NaturalLanguage__Irish => 377,
            Classifier::NaturalLanguage__Italian => 378,
            Classifier::NaturalLanguage__Japanese => 379,
            Classifier::NaturalLanguage__Javanese => 380,
            Classifier::NaturalLanguage__Korean => 381,
            Classifier::NaturalLanguage__Latin => 382,
            Classifier::NaturalLanguage__Latvian => 383,
            Classifier::NaturalLanguage__Lithuanian => 384,
            Classifier::NaturalLanguage__Macedonian => 385,
            Classifier::NaturalLanguage__Malay => 386,
            Classifier::NaturalLanguage__Marathi => 387,
            Classifier::NaturalLanguage__Nepali => 388,
            Classifier::NaturalLanguage__Norwegian => 389,
            Classifier::NaturalLanguage__Panjabi => 390,
            Classifier::NaturalLanguage__Persian => 391,
            Classifier::NaturalLanguage__Polish => 392,
            Classifier::NaturalLanguage__Portuguese => 393,
            Classifier::NaturalLanguage__PortugueseBrazilian => 394,
            Classifier::NaturalLanguage__Romanian => 395,
            Classifier::NaturalLanguage__Russian => 396,
            Classifier::NaturalLanguage__Serbian => 397,
            Classifier::NaturalLanguage__Slovak => 398,
            Classifier::NaturalLanguage__Slovenian => 399,
            Classifier::NaturalLanguage__Spanish => 400,
            Classifier::NaturalLanguage__Swedish => 401,
            Classifier::NaturalLanguage__Tamil => 402,
            Classifier::NaturalLanguage__Telugu => 403,
            Classifier::NaturalLanguage__Thai => 404,
            Classifier::NaturalLanguage__Tibetan => 405,
            Classifier::NaturalLanguage__Turkish => 406,
            Classifier::NaturalLanguage__Ukrainian => 407,
            Classifier::NaturalLanguage__Urdu => 408,
            Classifier::NaturalLanguage__Vietnamese => 409,
            Classifier::OperatingSystem__Android => 410,
            Classifier::OperatingSystem__BeOS => 411,
            Classifier::OperatingSystem__MacOS => 412,
            Classifier::OperatingSystem__MacOS__MacOS9 => 413,
            Classifier::OperatingSystem__MacOS__MacOSX => 414,
            Classifier::OperatingSystem__Microsoft => 415,
            Classifier::OperatingSystem__Microsoft__MSDOS => 416,
            Classifier::OperatingSystem__Microsoft__Windows => 417,
            Classifier::OperatingSystem__Microsoft__Windows__Windows10 => 418,
            Classifier::OperatingSystem__Microsoft__Windows__Windows11 => 419,
            Classifier::OperatingSystem__Microsoft__Windows__Windows3_1orEarlier => 420,
            Classifier::OperatingSystem__Microsoft__Windows__Windows7 => 421,
            Classifier::OperatingSystem__Microsoft__Windows__Windows8 => 422,
            Classifier::OperatingSystem__Microsoft__Windows__Windows8_1 => 423,
            Classifier::OperatingSystem__Microsoft__Windows__Windows95982000 => 424,
            Classifier::OperatingSystem__Microsoft__Windows__WindowsCE => 425,
            Classifier::OperatingSystem__Microsoft__Windows__WindowsNT2000 => 426,
            Classifier::OperatingSystem__Microsoft__Windows__WindowsServer2003 => 427,
            Classifier::OperatingSystem__Microsoft__Windows__WindowsServer2008 => 428,
            Classifier::OperatingSystem__Microsoft__Windows__WindowsVista => 429,
            Classifier::OperatingSystem__Microsoft__Windows__WindowsXP => 430,
            Classifier::OperatingSystem__OSIndependent => 431,
            Classifier::OperatingSystem__OS2 => 432,
            Classifier::OperatingSystem__OtherOS => 433,
            Classifier::OperatingSystem__PDASystems => 434,
            Classifier::OperatingSystem__POSIX => 435,
            Classifier::OperatingSystem__POSIX__AIX => 436,
            Classifier::OperatingSystem__POSIX__BSD => 437,
            Classifier::OperatingSystem__POSIX__BSD__BSDOS => 438,
            Classifier::OperatingSystem__POSIX__BSD__FreeBSD => 439,
            Classifier::OperatingSystem__POSIX__BSD__NetBSD => 440,
            Classifier::OperatingSystem__POSIX__BSD__OpenBSD => 441,
            Classifier::OperatingSystem__POSIX__GNUHurd => 442,
            Classifier::OperatingSystem__POSIX__HPUX => 443,
            Classifier::OperatingSystem__POSIX__IRIX => 444,
            Classifier::OperatingSystem__POSIX__Linux => 445,
            Classifier::OperatingSystem__POSIX__Other => 446,
            Classifier::OperatingSystem__POSIX__SCO => 447,
            Classifier::OperatingSystem__POSIX__SunOSSolaris => 448,
            Classifier::OperatingSystem__PalmOS => 449,
            _ => self.rank_block_d(),
        }
    }

    /// One stretch of the rank table; other classifiers fall through.
    pub open spec fn rank_block_d(self) -> int {
        match self {
            Classifier::OperatingSystem__RISCOS => 450,
            Classifier::OperatingSystem__Unix => 451,
            Classifier::OperatingSystem__iOS => 452,
            Classifier::ProgrammingLanguage__APL => 453,
            Classifier::ProgrammingLanguage__ASP => 454,
            Classifier::ProgrammingLanguage__Ada => 455,
            Classifier::ProgrammingLanguage__Assembly => 456,
            Classifier::ProgrammingLanguage__Awk => 457,
            Classifier::ProgrammingLanguage__Basic => 458,
            Classifier::ProgrammingLanguage__C => 459,
            Classifier::ProgrammingLanguage__Csharp => 460,
            Classifier::ProgrammingLanguage__Cplusplus => 461,
            Classifier::ProgrammingLanguage__ColdFusion => 462,
            Classifier::ProgrammingLanguage__Cython => 463,
            Classifier::ProgrammingLanguage__D => 464,
            Classifier::ProgrammingLanguage__DelphiKylix => 465,
            Classifier::ProgrammingLanguage__Dylan => 466,
            Classifier::ProgrammingLanguage__Eiffel => 467,
            Classifier::ProgrammingLanguage__EmacsLisp => 468,
            Classifier::ProgrammingLanguage__Erlang => 469,
            Classifier::ProgrammingLanguage__Euler => 470,
            Classifier::ProgrammingLanguage__Euphoria => 471,
            Classifier::ProgrammingLanguage__Fsharp => 472,
            Classifier::ProgrammingLanguage__Forth => 473,
            Classifier::ProgrammingLanguage__Fortran => 474,
            Classifier::ProgrammingLanguage__Go => 475,
            Classifier::ProgrammingLanguage__Haskell => 476,
            Classifier::ProgrammingLanguage__Hy => 477,
            Classifier::ProgrammingLanguage__Java => 478,
            Classifier::ProgrammingLanguage__JavaScript => 479,
            Classifier::ProgrammingLanguage__Kotlin => 480,
            Classifier::ProgrammingLanguage__Lisp => 481,
            Classifier::ProgrammingLanguage__Logo => 482,
            Classifier::ProgrammingLanguage__Lua => 483,
            Classifier::ProgrammingLanguage__ML => 484,
            Classifier::ProgrammingLanguage__Modula => 485,
            Classifier::ProgrammingLanguage__OCaml => 486,
            Classifier::ProgrammingLanguage__ObjectPascal => 487,
            Classifier::ProgrammingLanguage__ObjectiveC => 488,
            Classifier::ProgrammingLanguage__Other => 489,
            Classifier::ProgrammingLanguage__OtherScriptingEngines => 490,
            Classifier::ProgrammingLanguage__PHP => 491,
            Classifier::ProgrammingLanguage__PLSQL => 492,
            Classifier::ProgrammingLanguage__PROGRESS => 493,
            Classifier::ProgrammingLanguage__Pascal => 494,
            Classifier::ProgrammingLanguage__Perl => 495,
            Classifier::ProgrammingLanguage__Pike => 496,
            Classifier::ProgrammingLanguage__Pliant => 497,
            Classifier::ProgrammingLanguage__Prolog => 498,
            Classifier::ProgrammingLanguage__Python => 499,
            Classifier::ProgrammingLanguage__Python__2 => 500,
            Classifier::ProgrammingLanguage__Python__2__Only => 501,
            Classifier::ProgrammingLanguage__Python__2_3 => 502,
            Classifier::ProgrammingLanguage__Python__2_4 => 503,
            Classifier::ProgrammingLanguage__Python__2_5 => 504,
            Classifier::ProgrammingLanguage__Python__2_6 => 505,
            Classifier::ProgrammingLanguage__Python__2_7 => 506,
            Classifier::ProgrammingLanguage__Python__3 => 507,
            Classifier::ProgrammingLanguage__Python__3__Only => 508,
            Classifier::ProgrammingLanguage__Python__3_0 => 509,
            Classifier::ProgrammingLanguage__Python__3_1 => 510,
            Classifier::ProgrammingLanguage__Python__3_10 => 511,
            Classifier::ProgrammingLanguage__Python__3_11 => 512,
            Classifier::ProgrammingLanguage__Python__3_12 => 513,
            Classifier::ProgrammingLanguage__Python__3_13 => 514,
            Classifier::ProgrammingLanguage__Python__3_14 => 515,
            Classifier::ProgrammingLanguage__Python__3_2 => 516,
            Classifier::ProgrammingLanguage__Python__3_3 => 517,
            Classifier::ProgrammingLanguage__Python__3_4 => 518,
            Classifier::ProgrammingLanguage__Python__3_5 => 519,
            Classifier::ProgrammingLanguage__Python__3_6 => 520,
            Classifier::ProgrammingLanguage__Python__3_7 => 521,
            Classifier::ProgrammingLanguage__Python__3_8 => 522,
            Classifier::ProgrammingLanguage__Python__3_9 => 523,
            Classifier::ProgrammingLanguage__Python__Implementation => 524,
            Classifier::ProgrammingLanguage__Python__Implementation__CPython => 525,
            Classifier::ProgrammingLanguage__Python__Implementation__IronPython => 526,
            Classifier::ProgrammingLanguage__Python__Implementation__Jython => 527,
            Classifier::ProgrammingLanguage__Python__Implementation__MicroPython => 528,
            Classifier::ProgrammingLanguage__Python__Implementation__PyPy => 529,
            Classifier::ProgrammingLanguage__Python__Implementation__Stackless => 530,
            Classifier::ProgrammingLanguage__R => 531,
            Classifier::ProgrammingLanguage__REBOL => 532,
            Classifier::ProgrammingLanguage__Rexx => 533,
            Classifier::ProgrammingLanguage__Ruby => 534,
            Classifier::ProgrammingLanguage__Rust => 535,
            Classifier::ProgrammingLanguage__SQL => 536,
            Classifier::ProgrammingLanguage__Scheme => 537,
            Classifier::ProgrammingLanguage__Simula => 538,
            Classifier::ProgrammingLanguage__Smalltalk => 539,
            Classifier::ProgrammingLanguage__Tcl => 540,
            Classifier::ProgrammingLanguage__UnixShell => 541,
            Classifier::ProgrammingLanguage__VisualBasic => 542,
            Classifier::ProgrammingLanguage__XBasic => 543,
            Classifier::ProgrammingLanguage__YACC => 544,
            Classifier::ProgrammingLanguage__Zope => 545,
            Classifier::Topic__AdaptiveTechnologies => 546,
            Classifier::Topic__ArtisticSoftware => 547,
            Classifier::Topic__Communications => 548,
            Classifier::Topic__Communications__BBS => 549,
            Classifier::Topic__Communications__Chat => 550,
            Classifier::Topic__Communications__Chat__ICQ => 551,
            Classifier::Topic__Communications__Chat__InternetRelayChat => 552,
            Classifier::Topic__Communications__Chat__UnixTalk => 553,
            Classifier::Topic__Communications__Conferencing => 554,
            Classifier::Topic__Communications__Email => 555,
            Classifier::Topic__Communications__Email__AddressBook => 556,
            Classifier::Topic__Communications__Email__EmailClientsMUA => 557,
            Classifier::Topic__Communications__Email__Filters => 558,
            Classifier::Topic__Communications__Email__MailTransportAgents => 559,
            Classifier::Topic__Communications__Email__MailingListServers => 560,
            Classifier::Topic__Communications__Email__PostOffice => 561,
            Classifier::Topic__Communications__Email__PostOffice__IMAP => 562,
            Classifier::Topic__Communications__Email__PostOffice__POP3 => 563,
            Classifier::Topic__Communications__FIDO => 564,
            Classifier::Topic__Communications__Fax => 565,
            Classifier::Topic__Communications__FileSharing => 566,
            Classifier::Topic__Communications__FileSharing__Gnutella => 567,
            Classifier::Topic__Communications__FileSharing__Napster => 568,
            Classifier::Topic__Communications__HamRadio => 569,
            Classifier::Topic__Communications__InternetPhone => 570,
            Classifier::Topic__Communications__Telephony => 571,
            Classifier::Topic__Communications__UsenetNews => 572,
            Classifier::Topic__Database => 573,
            Classifier::Topic__Database__DatabaseEnginesServers => 574,
            Classifier::Topic__Database__FrontEnds => 575,
            Classifier::Topic__DesktopEnvironment => 576,
            Classifier::Topic__DesktopEnvironment__FileManagers => 577,
            Classifier::Topic__DesktopEnvironment__GNUstep => 578,
            Classifier::Topic__DesktopEnvironment__Gnome => 579,
            Classifier::Topic__DesktopEnvironment__KDesktopEnvironmentKDE => 580,
            Classifier::Topic__DesktopEnvironment__KDesktopEnvironmentKDE__Themes => 581,
            Classifier::Topic__DesktopEnvironment__PicoGUI => 582,
            Classifier::Topic__DesktopEnvironment__PicoGUI__Applications => 583,
            Classifier::Topic__DesktopEnvironment__PicoGUI__Themes => 584,
            Classifier::Topic__DesktopEnvironment__ScreenSavers => 585,
            Classifier::Topic__DesktopEnvironment__WindowManagers => 586,
            Classifier::Topic__DesktopEnvironment__WindowManagers__Afterstep => 587,
            Classifier::Topic__DesktopEnvironment__WindowManagers__Afterstep__Themes => 588,
            Classifier::Topic__DesktopEnvironment__WindowManagers__Applets => 589,
            Classifier::Topic__DesktopEnvironment__WindowManagers__Blackbox => 590,
            Classifier::Topic__DesktopEnvironment__WindowManagers__Blackbox__Themes => 591,
            Classifier::Topic__DesktopEnvironment__WindowManagers__CTWM => 592,
            Classifier::Topic__DesktopEnvironment__WindowManagers__CTWM__Themes => 593,
            Classifier::Topic__DesktopEnvironment__WindowManagers__Enlightenment => 594,
            Classifier::Topic__DesktopEnvironment__WindowManagers__Enlightenment__Epplets => 595,
            Classifier::Topic__DesktopEnvironment__WindowManagers__Enlightenment__ThemesDR15 => 596,
            Classifier::Topic__DesktopEnvironment__WindowManagers__Enlightenment__ThemesDR16 => 597,
            Classifier::Topic__DesktopEnvironment__WindowManagers__Enlightenment__ThemesDR17 => 598,
            Classifier::Topic__DesktopEnvironment__WindowManagers__FVWM => 599,
            _ => self.rank_block_e(),
        }
    }

    /// One stretch of the rank table; other classifiers fall through.
    pub open spec fn rank_block_e(self) -> int {
        match self {
            Classifier::Topic__DesktopEnvironment__WindowManagers__FVWM__Themes => 600,
            Classifier::Topic__DesktopEnvironment__WindowManagers__Fluxbox => 601,
            Classifier::Topic__DesktopEnvironment__WindowManagers__Fluxbox__Themes => 602,
            Classifier::Topic__DesktopEnvironment__WindowManagers__IceWM => 603,
            Classifier::Topic__DesktopEnvironment__WindowManagers__IceWM__Themes => 604,
            Classifier::Topic__DesktopEnvironment__WindowManagers__MetaCity => 605,
            Classifier::Topic__DesktopEnvironment__WindowManagers__MetaCity__Themes => 606,
            Classifier::Topic__DesktopEnvironment__WindowManagers__Oroborus => 607,
            Classifier::Topic__DesktopEnvironment__WindowManagers__Oroborus__Themes => 608,
            Classifier::Topic__DesktopEnvironment__WindowManagers__Sawfish => 609,
            Classifier::Topic__DesktopEnvironment__WindowManagers__Sawfish__Themes0_30 => 610,
            Classifier::Topic__DesktopEnvironment__WindowManagers__Sawfish__Themespre0_30 => 611,
            Classifier::Topic__DesktopEnvironment__WindowManagers__Waimea => 612,
            Classifier::Topic__DesktopEnvironment__WindowManagers__Waimea__Themes => 613,
            Classifier::Topic__DesktopEnvironment__WindowManagers__WindowMaker => 614,
            Classifier::Topic__DesktopEnvironment__WindowManagers__WindowMaker__Applets => 615,
            Classifier::Topic__DesktopEnvironment__WindowManagers__WindowMaker__Themes => 616,
            Classifier::Topic__DesktopEnvironment__WindowManagers__XFCE => 617,
            Classifier::Topic__DesktopEnvironment__WindowManagers__XFCE__Themes => 618,
            Classifier::Topic__Documentation => 619,
            Classifier::Topic__Documentation__Sphinx => 620,
            Classifier::Topic__Education => 621,
            Classifier::Topic__Education__ComputerAidedInstructionCAI => 622,
            Classifier::Topic__Education__Testing => 623,
            Classifier::Topic__FileFormats => 624,
            Classifier::Topic__FileFormats__JSON => 625,
            Classifier::Topic__FileFormats__JSON__JSONSchema => 626,
            Classifier::Topic__GamesEntertainment => 627,
            Classifier::Topic__GamesEntertainment__Arcade => 628,
            Classifier::Topic__GamesEntertainment__BoardGames => 629,
            Classifier::Topic__GamesEntertainment__FirstPersonShooters => 630,
            Classifier::Topic__GamesEntertainment__FortuneCookies => 631,
            Classifier::Topic__GamesEntertainment__MultiUserDungeonsMUD => 632,
            Classifier::Topic__GamesEntertainment__PuzzleGames => 633,
            Classifier::Topic__GamesEntertainment__RealTimeStrategy => 634,
            Classifier::Topic__GamesEntertainment__RolePlaying => 635,
            Classifier::Topic__GamesEntertainment__SideScrollingArcadeGames => 636,
            Classifier::Topic__GamesEntertainment__Simulation => 637,
            Classifier::Topic__GamesEntertainment__TurnBasedStrategy => 638,
            Classifier::Topic__HomeAutomation => 639,
            Classifier::Topic__Internet => 640,
            Classifier::Topic__Internet__FileTransferProtocolFTP => 641,
            Classifier::Topic__Internet__Finger => 642,
            Classifier::Topic__Internet__LogAnalysis => 643,
            Classifier::Topic__Internet__NameServiceDNS => 644,
            Classifier::Topic__Internet__ProxyServers => 645,
            Classifier::Topic__Internet__WAP => 646,
            Classifier::Topic__Internet__WWWHTTP => 647,
            Classifier::Topic__Internet__WWWHTTP__Browsers => 648,
            Classifier::Topic__Internet__WWWHTTP__DynamicContent => 649,
            Classifier::Topic__Internet__WWWHTTP__DynamicContent__CGIToolsLibraries => 650,
            Classifier::Topic__Internet__WWWHTTP__DynamicContent__ContentManagementSystem => 651,
            Classifier::Topic__Internet__WWWHTTP__DynamicContent__MessageBoards => 652,
            Classifier::Topic__Internet__WWWHTTP__DynamicContent__NewsDiary => 653,
            Classifier::Topic__Internet__WWWHTTP__DynamicContent__PageCounters => 654,
            Classifier::Topic__Internet__WWWHTTP__DynamicContent__Wiki => 655,
            Classifier::Topic__Internet__WWWHTTP__HTTPServers => 656,
            Classifier::Topic__Internet__WWWHTTP__IndexingSearch => 657,
            Classifier::Topic__Internet__WWWHTTP__Session => 658,
            Classifier::Topic__Internet__WWWHTTP__SiteManagement => 659,
            Classifier::Topic__Internet__WWWHTTP__SiteManagement__LinkChecking => 660,
            Classifier::Topic__Internet__WWWHTTP__WSGI => 661,
            Classifier::Topic__Internet__WWWHTTP__WSGI__Application => 662,
            Classifier::Topic__Internet__WWWHTTP__WSGI__Middleware => 663,
            Classifier::Topic__Internet__WWWHTTP__WSGI__Server => 664,
            Classifier::Topic__Internet__XMPP => 665,
            Classifier::Topic__Internet__Z39_50 => 666,
            Classifier::Topic__Multimedia => 667,
            Classifier::Topic__Multimedia__Graphics => 668,
            Classifier::Topic__Multimedia__Graphics__3DModeling => 669,
            Classifier::Topic__Multimedia__Graphics__3DRendering => 670,
            Classifier::Topic__Multimedia__Graphics__Capture => 671,
            Classifier::Topic__Multimedia__Graphics__Capture__DigitalCamera => 672,
            Classifier::Topic__Multimedia__Graphics__Capture__Scanners => 673,
            Classifier::Topic__Multimedia__Graphics__Capture__ScreenCapture => 674,
            Classifier::Topic__Multimedia__Graphics__Editors => 675,
            Classifier::Topic__Multimedia__Graphics__Editors__RasterBased => 676,
            Classifier::Topic__Multimedia__Graphics__Editors__VectorBased => 677,
            Classifier::Topic__Multimedia__Graphics__GraphicsConversion => 678,
            Classifier::Topic__Multimedia__Graphics__Presentation => 679,
            Classifier::Topic__Multimedia__Graphics__Viewers => 680,
            Classifier::Topic__Multimedia__SoundAudio => 681,
            Classifier::Topic__Multimedia__SoundAudio__Analysis => 682,
            Classifier::Topic__Multimedia__SoundAudio__CDAudio => 683,
            Classifier::Topic__Multimedia__SoundAudio__CDAudio__CDPlaying => 684,
            Classifier::Topic__Multimedia__SoundAudio__CDAudio__CDRipping => 685,
            Classifier::Topic__Multimedia__SoundAudio__CDAudio__CDWriting => 686,
            Classifier::Topic__Multimedia__SoundAudio__CaptureRecording => 687,
            Classifier::Topic__Multimedia__SoundAudio__Conversion => 688,
            Classifier::Topic__Multimedia__SoundAudio__Editors => 689,
            Classifier::Topic__Multimedia__SoundAudio__MIDI => 690,
            Classifier::Topic__Multimedia__SoundAudio__Mixers => 691,
            Classifier::Topic__Multimedia__SoundAudio__Players => 692,
            Classifier::Topic__Multimedia__SoundAudio__Players__MP3 => 693,
            Classifier::Topic__Multimedia__SoundAudio__SoundSynthesis => 694,
            Classifier::Topic__Multimedia__SoundAudio__Speech => 695,
            Classifier::Topic__Multimedia__Video => 696,
            Classifier::Topic__Multimedia__Video__Capture => 697,
            Classifier::Topic__Multimedia__Video__Conversion => 698,
            Classifier::Topic__Multimedia__Video__Display => 699,
            Classifier::Topic__Multimedia__Video__NonLinearEditor => 700,
            Classifier::Topic__OfficeBusiness => 701,
            Classifier::Topic__OfficeBusiness__Financial => 702,
            Classifier::Topic__OfficeBusiness__Financial__Accounting => 703,
            Classifier::Topic__OfficeBusiness__Financial__Investment => 704,
            Classifier::Topic__OfficeBusiness__Financial__PointOfSale => 705,
            Classifier::Topic__OfficeBusiness__Financial__Spreadsheet => 706,
            Classifier::Topic__OfficeBusiness__Groupware => 707,
            Classifier::Topic__OfficeBusiness__NewsDiary => 708,
            Classifier::Topic__OfficeBusiness__OfficeSuites => 709,
            Classifier::Topic__OfficeBusiness__Scheduling => 710,
            Classifier::Topic__OtherNonlistedTopic => 711,
            Classifier::Topic__Printing => 712,
            Classifier::Topic__Religion => 713,
            Classifier::Topic__ScientificEngineering => 714,
            Classifier::Topic__ScientificEngineering__ArtificialIntelligence => 715,
            Classifier::Topic__ScientificEngineering__ArtificialLife => 716,
            Classifier::Topic__ScientificEngineering__Astronomy => 717,
            Classifier::Topic__ScientificEngineering__AtmosphericScience => 718,
            Classifier::Topic__ScientificEngineering__BioInformatics => 719,
            Classifier::Topic__ScientificEngineering__Chemistry => 720,
            Classifier::Topic__ScientificEngineering__ElectronicDesignAutomationEDA => 721,
            Classifier::Topic__ScientificEngineering__GIS => 722,
            Classifier::Topic__ScientificEngineering__HumanMachineInterfaces => 723,
            Classifier::Topic__ScientificEngineering__Hydrology => 724,
            Classifier::Topic__ScientificEngineering__ImageProcessing => 725,
            Classifier::Topic__ScientificEngineering__ImageRecognition => 726,
            Classifier::Topic__ScientificEngineering__InformationAnalysis => 727,
            Classifier::Topic__ScientificEngineering__InterfaceEngineProtocolTranslator => 728,
            Classifier::Topic__ScientificEngineering__Mathematics => 729,
            Classifier::Topic__ScientificEngineering__MedicalScienceApps_ => 730,
            Classifier::Topic__ScientificEngineering__Oceanography => 731,
            Classifier::Topic__ScientificEngineering__Physics => 732,
            Classifier::Topic__ScientificEngineering__Visualization => 733,
            Classifier::Topic__Security => 734,
            Classifier::Topic__Security__Cryptography => 735,
            Classifier::Topic__Sociology => 736,
            Classifier::Topic__Sociology__Genealogy => 737,
            Classifier::Topic__Sociology__History => 738,
            Classifier::Topic__SoftwareDevelopment => 739,
            Classifier::Topic__SoftwareDevelopment__Assemblers => 740,
            Classifier::Topic__SoftwareDevelopment__BugTracking => 741,
            Classifier::Topic__SoftwareDevelopment__BuildTools => 742,
            Classifier::Topic__SoftwareDevelopment__CodeGenerators => 743,
            Classifier::Topic__SoftwareDevelopment__Compilers => 744,
            Classifier::Topic__SoftwareDevelopment__Debuggers => 745,
            Classifier::Topic__SoftwareDevelopment__Disassemblers => 746,
            Classifier::Topic__SoftwareDevelopment__Documentation => 747,
            Classifier::Topic__SoftwareDevelopment__EmbeddedSystems => 748,
            Classifier::Topic__SoftwareDevelopment__EmbeddedSystems__ControllerAreaNetworkCAN => 749,
            _ => self.rank_block_f(),
        }
    }

    /// One stretch of the rank table; other classifiers fall through.
    pub open spec fn rank_block_f(self) -> int {
        match self {
            Classifier::Topic__SoftwareDevelopment__EmbeddedSystems__ControllerAreaNetworkCAN__CANopen => 750,
            Classifier::Topic__SoftwareDevelopment__EmbeddedSystems__ControllerAreaNetworkCAN__J1939 => 751,
            Classifier::Topic__SoftwareDevelopment__Internationalization => 752,
            Classifier::Topic__SoftwareDevelopment__Interpreters => 753,
            Classifier::Topic__SoftwareDevelopment__Libraries => 754,
            Classifier::Topic__SoftwareDevelopment__Libraries__ApplicationFrameworks => 755,
            Classifier::Topic__SoftwareDevelopment__Libraries__JavaLibraries => 756,
            Classifier::Topic__SoftwareDevelopment__Libraries__PHPClasses => 757,
            Classifier::Topic__SoftwareDevelopment__Libraries__PerlModules => 758,
            Classifier::Topic__SoftwareDevelopment__Libraries__PikeModules => 759,
            Classifier::Topic__SoftwareDevelopment__Libraries__PythonModules => 760,
            Classifier::Topic__SoftwareDevelopment__Libraries__RubyModules => 761,
            Classifier::Topic__SoftwareDevelopment__Libraries__TclExtensions => 762,
            Classifier::Topic__SoftwareDevelopment__Libraries__pygame => 763,
            Classifier::Topic__SoftwareDevelopment__Localization => 764,
            Classifier::Topic__SoftwareDevelopment__ObjectBrokering => 765,
            Classifier::Topic__SoftwareDevelopment__ObjectBrokering__CORBA => 766,
            Classifier::Topic__SoftwareDevelopment__Preprocessors => 767,
            Classifier::Topic__SoftwareDevelopment__QualityAssurance => 768,
            Classifier::Topic__SoftwareDevelopment__Testing => 769,
            Classifier::Topic__SoftwareDevelopment__Testing__Acceptance => 770,
            Classifier::Topic__SoftwareDevelopment__Testing__BDD => 771,
            Classifier::Topic__SoftwareDevelopment__Testing__Mocking => 772,
            Classifier::Topic__SoftwareDevelopment__Testing__TrafficGeneration => 773,
            Classifier::Topic__SoftwareDevelopment__Testing__Unit => 774,
            Classifier::Topic__SoftwareDevelopment__UserInterfaces => 775,
            Classifier::Topic__SoftwareDevelopment__VersionControl => 776,
            Classifier::Topic__SoftwareDevelopment__VersionControl__Bazaar => 777,
            Classifier::Topic__SoftwareDevelopment__VersionControl__CVS => 778,
            Classifier::Topic__SoftwareDevelopment__VersionControl__Git => 779,
            Classifier::Topic__SoftwareDevelopment__VersionControl__Mercurial => 780,
            Classifier::Topic__SoftwareDevelopment__VersionControl__RCS => 781,
            Classifier::Topic__SoftwareDevelopment__VersionControl__SCCS => 782,
            Classifier::Topic__SoftwareDevelopment__WidgetSets => 783,
            Classifier::Topic__System => 784,
            Classifier::Topic__System__Archiving => 785,
            Classifier::Topic__System__Archiving__Backup => 786,
            Classifier::Topic__System__Archiving__Compression => 787,
            Classifier::Topic__System__Archiving__Mirroring => 788,
            Classifier::Topic__System__Archiving__Packaging => 789,
            Classifier::Topic__System__Benchmark => 790,
            Classifier::Topic__System__Boot => 791,
            Classifier::Topic__System__Boot__Init => 792,
            Classifier::Topic__System__Clustering => 793,
            Classifier::Topic__System__ConsoleFonts => 794,
            Classifier::Topic__System__DistributedComputing => 795,
            Classifier::Topic__System__Emulators => 796,
            Classifier::Topic__System__Filesystems => 797,
            Classifier::Topic__System__Hardware => 798,
            Classifier::Topic__System__Hardware__HardwareDrivers => 799,
            Classifier::Topic__System__Hardware__Mainframes => 800,
            Classifier::Topic__System__Hardware__SymmetricMultiprocessing => 801,
            Classifier::Topic__System__Hardware__UniversalSerialBusUSB => 802,
            Classifier::Topic__System__Hardware__UniversalSerialBusUSB__Audio => 803,
            Classifier::Topic__System__Hardware__UniversalSerialBusUSB__AudioVideoAV => 804,
            Classifier::Topic__System__Hardware__UniversalSerialBusUSB__CommunicationsDeviceClassCDC => 805,
            Classifier::Topic__System__Hardware__UniversalSerialBusUSB__DiagnosticDevice => 806,
            Classifier::Topic__System__Hardware__UniversalSerialBusUSB__Hub => 807,
            Classifier::Topic__System__Hardware__UniversalSerialBusUSB__HumanInterfaceDeviceHID => 808,
            Classifier::Topic__System__Hardware__UniversalSerialBusUSB__MassStorage => 809,
            Classifier::Topic__System__Hardware__UniversalSerialBusUSB__Miscellaneous => 810,
            Classifier::Topic__System__Hardware__UniversalSerialBusUSB__Printer => 811,
            Classifier::Topic__System__Hardware__UniversalSerialBusUSB__SmartCard => 812,
            Classifier::Topic__System__Hardware__UniversalSerialBusUSB__Vendor => 813,
            Classifier::Topic__System__Hardware__UniversalSerialBusUSB__VideoUVC => 814,
            Classifier::Topic__System__Hardware__UniversalSerialBusUSB__WirelessController => 815,
            Classifier::Topic__System__InstallationSetup => 816,
            Classifier::Topic__System__Logging => 817,
            Classifier::Topic__System__Monitoring => 818,
            Classifier::Topic__System__Networking => 819,
            Classifier::Topic__System__Networking__Firewalls => 820,
            Classifier::Topic__System__Networking__Monitoring => 821,
            Classifier::Topic__System__Networking__Monitoring__HardwareWatchdog => 822,
            Classifier::Topic__System__Networking__TimeSynchronization => 823,
            Classifier::Topic__System__OperatingSystem => 824,
            Classifier::Topic__System__OperatingSystemKernels => 825,
            Classifier::Topic__System__OperatingSystemKernels__BSD => 826,
            Classifier::Topic__System__OperatingSystemKernels__GNUHurd => 827,
            Classifier::Topic__System__OperatingSystemKernels__Linux => 828,
            Classifier::Topic__System__PowerUPS => 829,
            Classifier::Topic__System__RecoveryTools => 830,
            Classifier::Topic__System__Shells => 831,
            Classifier::Topic__System__SoftwareDistribution => 832,
            Classifier::Topic__System__SystemShells => 833,
            Classifier::Topic__System__SystemsAdministration => 834,
            Classifier::Topic__System__SystemsAdministration__AuthenticationDirectory => 835,
            Classifier::Topic__System__SystemsAdministration__AuthenticationDirectory__LDAP => 836,
            Classifier::Topic__System__SystemsAdministration__AuthenticationDirectory__NIS => 837,
            Classifier::Topic__Terminals => 838,
            Classifier::Topic__Terminals__Serial => 839,
            Classifier::Topic__Terminals__Telnet => 840,
            Classifier::Topic__Terminals__TerminalEmulatorsXTerminals => 841,
            Classifier::Topic__TextEditors => 842,
            Classifier::Topic__TextEditors__Documentation => 843,
            Classifier::Topic__TextEditors__Emacs => 844,
            Classifier::Topic__TextEditors__IntegratedDevelopmentEnvironmentsIDE => 845,
            Classifier::Topic__TextEditors__TextProcessing => 846,
            Classifier::Topic__TextEditors__WordProcessors => 847,
            Classifier::Topic__TextProcessing => 848,
            Classifier::Topic__TextProcessing__Filters => 849,
            Classifier::Topic__TextProcessing__Fonts => 850,
            Classifier::Topic__TextProcessing__General => 851,
            Classifier::Topic__TextProcessing__Indexing => 852,
            Classifier::Topic__TextProcessing__Linguistic => 853,
            Classifier::Topic__TextProcessing__Markup => 854,
            Classifier::Topic__TextProcessing__Markup__HTML => 855,
            Classifier::Topic__TextProcessing__Markup__LaTeX => 856,
            Classifier::Topic__TextProcessing__Markup__Markdown => 857,
            Classifier::Topic__TextProcessing__Markup__SGML => 858,
            Classifier::Topic__TextProcessing__Markup__VRML => 859,
            Classifier::Topic__TextProcessing__Markup__XML => 860,
            Classifier::Topic__TextProcessing__Markup__reStructuredText => 861,
            Classifier::Topic__Utilities => 862,
            Classifier::Typing__StubsOnly => 863,
            Classifier::Typing__Typed => 864,
            _ => 0,
        }
    }
}

/// The classifier whose tag has lexicographic position `i` among all tags.
pub open spec fn classifier_of_rank(i: int) -> Classifier {
    if i < 432 {
        if i < 216 {
            if i < 108 {
                if i < 54 {
                    if i < 27 {
                        if i < 13 {
                            if i < 6 {
                                if i < 3 {
                                    if i < 1 {
                                        Classifier::DevelopmentStatus__1Planning
                                    } else {
                                        if i < 2 {
                                            Classifier::DevelopmentStatus__2PreAlpha
                                        } else {
                                            Classifier::DevelopmentStatus__3Alpha
                                        }
                                    }
                                } else {
                                    if i < 4 {
                                        Classifier::DevelopmentStatus__4Beta
                                    } else {
                                        if i < 5 {
                                            Classifier::DevelopmentStatus__5ProductionStable
                                        } else {
                                            Classifier::DevelopmentStatus__6Mature
                                        }
                                    }
                                }
                            } else {
                                if i < 9 {
                                    if i < 7 {
                                        Classifier::DevelopmentStatus__7Inactive
                                    } else {
                                        if i < 8 {
                                            Classifier::Environment__Console
                                        } else {
                                            Classifier::Environment__Console__Curses
                                        }
                                    }
                                } else {
                                    if i < 11 {
                                        if i < 10 {
                                            Classifier::Environment__Console__Framebuffer
                                        } else {
                                            Classifier::Environment__Console__Newt
                                        }
                                    } else {
                                        if i < 12 {
                                            Classifier::Environment__Console__svgalib
                                        } else {
                                            Classifier::Environment__GPU
                                        }
                                    }
                                }
                            }
                        } else {
                            if i < 20 {
                                if i < 16 {
                                    if i < 14 {
                                        Classifier::Environment__GPU__NVIDIACUDA
                                    } else {
                                        if i < 15 {
                                            Classifier::Environment__GPU__NVIDIACUDA__1_0
                                        } else {
                                            Classifier::Environment__GPU__NVIDIACUDA__1_1
                                        }
                                    }
                                } else {
                                    if i < 18 {
                                        if i < 17 {
                                            Classifier::Environment__GPU__NVIDIACUDA__10_0
                                        } else {
                                            Classifier::Environment__GPU__NVIDIACUDA__10_1
                                        }
                                    } else {
                                        if i < 19 {
                                            Classifier::Environment__GPU__NVIDIACUDA__10_2
                                        } else {
                                            Classifier::Environment__GPU__NVIDIACUDA__11
                                        }
                                    }
                                }
                            } else {
                                if i < 23 {
                                    if i < 21 {
                                        Classifier::Environment__GPU__NVIDIACUDA__11_0
                                    } else {
                                        if i < 22 {
                                            Classifier::Environment__GPU__NVIDIACUDA__11_1
                                        } else {
                                            Classifier::Environment__GPU__NVIDIACUDA__11_2
                                        }
                                    }
                                } else {
                                    if i < 25 {
                                        if i < 24 {
                                            Classifier::Environment__GPU__NVIDIACUDA__11_3
                                        } else {
                                            Classifier::Environment__GPU__NVIDIACUDA__11_4
                                        }
                                    } else {
                                        if i < 26 {
                                            Classifier::Environment__GPU__NVIDIACUDA__11_5
                                        } else {
                                            Classifier::Environment__GPU__NVIDIACUDA__11_6
                                        }
                                    }
                                }
                            }
                        }
                    } else {
                        if i < 40 {
                            if i < 33 {
                                if i < 30 {
                                    if i < 28 {
                                        Classifier::Environment__GPU__NVIDIACUDA__11_7
                                    } else {
                                        if i < 29 {
                                            Classifier::Environment__GPU__NVIDIACUDA__11_8
                                        } else {
                                            Classifier::Environment__GPU__NVIDIACUDA__12
                                        }
                                    }
                                } else {
                                    if i < 31 {
                                        Classifier::Environment__GPU__NVIDIACUDA__12__12_0
                                    } else {
                                        if i < 32 {
                                            Classifier::Environment__GPU__NVIDIACUDA__12__12_1
                                        } else {
                                            Classifier::Environment__GPU__NVIDIACUDA__12__12_2
                                        }
                                    }
                                }
                            } else {
                                if i < 36 {
                                    if i < 34 {
                                        Classifier::Environment__GPU__NVIDIACUDA__12__12_3
                                    } else {
                                        if i < 35 {
                                            Classifier::Environment__GPU__NVIDIACUDA__12__12_4
                                        } else {
                                            Classifier::Environment__GPU__NVIDIACUDA__12__12_5
                                        }
                                    }
                                } else {
                                    if i < 38 {
                                        if i < 37 {
                                            Classifier::Environment__GPU__NVIDIACUDA__2_0
                                        } else {
                                            Classifier::Environment__GPU__NVIDIACUDA__2_1
                                        }
                                    } else {
                                        if i < 39 {
                                            Classifier::Environment__GPU__NVIDIACUDA__2_2
                                        } else {
                                            Classifier::Environment__GPU__NVIDIACUDA__2_3
                                        }
                                    }
                                }
                            }
                        } else {
                            if i < 47 {
                                if i < 43 {
                                    if i < 41 {
                                        Classifier::Environment__GPU__NVIDIACUDA__3_0
                                    } else {
                                        if i < 42 {
                                            Classifier::Environment__GPU__NVIDIACUDA__3_1
                                        } else {
                                            Classifier::Environment__GPU__NVIDIACUDA__3_2
                                        }
                                    }
                                } else {
                                    if i < 45 {
                                        if i < 44 {
                                            Classifier::Environment__GPU__NVIDIACUDA__4_0
                                        } else {
                                            Classifier::Environment__GPU__NVIDIACUDA__4_1
                                        }
                                    } else {
                                        if i < 46 {
                                            Classifier::Environment__GPU__NVIDIACUDA__4_2
                                        } else {
                                            Classifier::Environment__GPU__NVIDIACUDA__5_0
                                        }
                                    }
                                }
                            } else {
                                if i < 50 {
                                    if i < 48 {
                                        Classifier::Environment__GPU__NVIDIACUDA__5_5
                                    } else {
                                        if i < 49 {
                                            Classifier::Environment__GPU__NVIDIACUDA__6_0
                                        } else {
                                            Classifier::Environment__GPU__NVIDIACUDA__6_5
                                        }
                                    }
                                } else {
                                    if i < 52 {
                                        if i < 51 {
                                            Classifier::Environment__GPU__NVIDIACUDA__7_0
                                        } else {
                                            Classifier::Environment__GPU__NVIDIACUDA__7_5
                                        }
                                    } else {
                                        if i < 53 {
                                            Classifier::Environment__GPU__NVIDIACUDA__8_0
                                        } else {
                                            Classifier::Environment__GPU__NVIDIACUDA__9_0
                                        }
                                    }
                                }
                            }
                        }
                    }
                } else {
                    if i < 81 {
                        if i < 67 {
                            if i < 60 {
                                if i < 57 {
                                    if i < 55 {
                                        Classifier::Environment__GPU__NVIDIACUDA__9_1
                                    } else {
                                        if i < 56 {
                                            Classifier::Environment__GPU__NVIDIACUDA__9_2
                                        } else {
                                            Classifier::Environment__HandheldsPDAs
                                        }
                                    }
                                } else {
                                    if i < 58 {
                                        Classifier::Environment__MacOSX
                                    } else {
                                        if i < 59 {
                                            Classifier::Environment__MacOSX__Aqua
                                        } else {
                                            Classifier::Environment__MacOSX__Carbon
                                        }
                                    }
                                }
                            } else {
                                if i < 63 {
                                    if i < 61 {
                                        Classifier::Environment__MacOSX__Cocoa
                                    } else {
                                        if i < 62 {
                                            Classifier::Environment__NoInputOutputDaemon
                                        } else {
                                            Classifier::Environment__OpenStack
                                        }
                                    }
                                } else {
                                    if i < 65 {
                                        if i < 64 {
                                            Classifier::Environment__OtherEnvironment
                                        } else {
                                            Classifier::Environment__Plugins
                                        }
                                    } else {
                                        if i < 66 {
                                            Classifier::Environment__WebEnvironment
                                        } else {
                                            Classifier::Environment__WebEnvironment__Buffet
                                        }
                                    }
                                }
                            }
                        } else {
                            if i < 74 {
                                if i < 70 {
                                    if i < 68 {
                                        Classifier::Environment__WebEnvironment__Mozilla
                                    } else {
                                        if i < 69 {
                                            Classifier::Environment__WebEnvironment__ToscaWidgets
                                        } else {
                                            Classifier::Environment__WebAssembly
                                        }
                                    }
                                } else {
                                    if i < 72 {
                                        if i < 71 {
                                            Classifier::Environment__WebAssembly__Emscripten
                                        } else {
                                            Classifier::Environment__WebAssembly__WASI
                                        }
                                    } else {
                                        if i < 73 {
                                            Classifier::Environment__Win32MSWindows
                                        } else {
                                            Classifier::Environment__X11Applications
                                        }
                                    }
                                }
                            } else {
                                if i < 77 {
                                    if i < 75 {
                                        Classifier::Environment__X11Applications__GTK
                                    } else {
                                        if i < 76 {
                                            Classifier::Environment__X11Applications__Gnome
                                        } else {
                                            Classifier::Environment__X11Applications__KDE
                                        }
                                    }
                                } else {
                                    if i < 79 {
                                        if i < 78 {
                                            Classifier::Environment__X11Applications__Qt
                                        } else {
                                            Classifier::Framework__AWSCDK
                                        }
                                    } else {
                                        if i < 80 {
                                            Classifier::Framework__AWSCDK__1
                                        } else {
                                            Classifier::Framework__AWSCDK__2
                                        }
                                    }
                                }
                            }
                        }
                    } else {
                        if i < 94 {
                            if i < 87 {
                                if i < 84 {
                                    if i < 82 {
                                        Classifier::Framework__AiiDA
                                    } else {
                                        if i < 83 {
                                            Classifier::Framework__Ansible
                                        } else {
                                            Classifier::Framework__AnyIO
                                        }
                                    }
                                } else {
                                    if i < 85 {
                                        Classifier::Framework__ApacheAirflow
                                    } else {
                                        if i < 86 {
                                            Classifier::Framework__ApacheAirflow__Provider
                                        } else {
                                            Classifier::Framework__AsyncIO
                                        }
                                    }
                                }
                            } else {
                                if i < 90 {
                                    if i < 88 {
                                        Classifier::Framework__BEAT
                                    } else {
                                        if i < 89 {
                                            Classifier::Framework__BFG
                                        } else {
                                            Classifier::Framework__Bob
                                        }
                                    }
                                } else {
                                    if i < 92 {
                                        if i < 91 {
                                            Classifier::Framework__Bottle
                                        } else {
                                            Classifier::Framework__Buildout
                                        }
                                    } else {
                                        if i < 93 {
                                            Classifier::Framework__Buildout__Extension
                                        } else {
                                            Classifier::Framework__Buildout__Recipe
                                        }
                                    }
                                }
                            }
                        } else {
                            if i < 101 {
                                if i < 97 {
                                    if i < 95 {
                                        Classifier::Framework__CastleCMS
                                    } else {
                                        if i < 96 {
                                            Classifier::Framework__CastleCMS__Theme
                                        } else {
                                            Classifier::Framework__Celery
                                        }
                                    }
                                } else {
                                    if i < 99 {
                                        if i < 98 {
                                            Classifier::Framework__Chandler
                                        } else {
                                            Classifier::Framework__CherryPy
                                        }
                                    } else {
                                        if i < 100 {
                                            Classifier::Framework__CubicWeb
                                        } else {
                                            Classifier::Framework__Dash
                                        }
                                    }
                                }
                            } else {
                                if i < 104 {
                                    if i < 102 {
                                        Classifier::Framework__Datasette
                                    } else {
                                        if i < 103 {
                                            Classifier::Framework__Django
                                        } else {
                                            Classifier::Framework__Django__1
                                        }
                                    }
                                } else {
                                    if i < 106 {
                                        if i < 105 {
                                            Classifier::Framework__Django__1_10
                                        } else {
                                            Classifier::Framework__Django__1_11
                                        }
                                    } else {
                                        if i < 107 {
                                            Classifier::Framework__Django__1_4
                                        } else {
                                            Classifier::Framework__Django__1_5
                                        }
                                    }
                                }
                            }
                        }
                    }
                }
            } else {
                if i < 162 {
                    if i < 135 {
                        if i < 121 {
                            if i < 114 {
                                if i < 111 {
                                    if i < 109 {
                                        Classifier::Framework__Django__1_6
                                    } else {
                                        if i < 110 {
                                            Classifier::Framework__Django__1_7
                                        } else {
                                            Classifier::Framework__Django__1_8
                                        }
                                    }
                                } else {
                                    if i < 112 {
                                        Classifier::Framework__Django__1_9
                                    } else {
                                        if i < 113 {
                                            Classifier::Framework__Django__2
                                        } else {
                                            Classifier::Framework__Django__2_0
                                        }
                                    }
                                }
                            } else {
                                if i < 117 {
                                    if i < 115 {
                                        Classifier::Framework__Django__2_1
                                    } else {
                                        if i < 116 {
                                            Classifier::Framework__Django__2_2
                                        } else {
                                            Classifier::Framework__Django__3
                                        }
                                    }
                                } else {
                                    if i < 119 {
                                        if i < 118 {
                                            Classifier::Framework__Django__3_0
                                        } else {
                                            Classifier::Framework__Django__3_1
                                        }
                                    } else {
                                        if i < 120 {
                                            Classifier::Framework__Django__3_2
                                        } else {
                                            Classifier::Framework__Django__4
                                        }
                                    }
                                }
                            }
                        } else {
                            if i < 128 {
                                if i < 124 {
                                    if i < 122 {
                                        Classifier::Framework__Django__4_0
                                    } else {
                                        if i < 123 {
                                            Classifier::Framework__Django__4_1
                                        } else {
                                            Classifier::Framework__Django__4_2
                                        }
                                    }
                                } else {
                                    if i < 126 {
                                        if i < 125 {
                                            Classifier::Framework__Django__5
                                        } else {
                                            Classifier::Framework__Django__5_0
                                        }
                                    } else {
                                        if i < 127 {
                                            Classifier::Framework__Django__5_1
                                        } else {
                                            Classifier::Framework__Django__5_2
                                        }
                                    }
                                }
                            } else {
                                if i < 131 {
                                    if i < 129 {
                                        Classifier::Framework__DjangoCMS
                                    } else {
                                        if i < 130 {
                                            Classifier::Framework__DjangoCMS__3_10
                                        } else {
                                            Classifier::Framework__DjangoCMS__3_11
                                        }
                                    }
                                } else {
                                    if i < 133 {
                                        if i < 132 {
                                            Classifier::Framework__DjangoCMS__3_4
                                        } else {
                                            Classifier::Framework__DjangoCMS__3_5
                                        }
                                    } else {
                                        if i < 134 {
                                            Classifier::Framework__DjangoCMS__3_6
                                        } else {
                                            Classifier::Framework__DjangoCMS__3_7
                                        }
                                    }
                                }
                            }
                        }
                    } else {
                        if i < 148 {
                            if i < 141 {
                                if i < 138 {
                                    if i < 136 {
                                        Classifier::Framework__DjangoCMS__3_8
                                    } else {
                                        if i < 137 {
                                            Classifier::Framework__DjangoCMS__3_9
                                        } else {
                                            Classifier::Framework__DjangoCMS__4_0
                                        }
                                    }
                                } else {
                                    if i < 139 {
                                        Classifier::Framework__DjangoCMS__4_1
                                    } else {
                                        if i < 140 {
                                            Classifier::Framework__FastAPI
                                        } else {
                                            Classifier::Framework__Flake8
                                        }
                                    }
                                }
                            } else {
                                if i < 144 {
                                    if i < 142 {
                                        Classifier::Framework__Flask
                                    } else {
                                        if i < 143 {
                                            Classifier::Framework__Hatch
                                        } else {
                                            Classifier::Framework__Hypothesis
                                        }
                                    }
                                } else {
                                    if i < 146 {
                                        if i < 145 {
                                            Classifier::Framework__IDLE
                                        } else {
                                            Classifier::Framework__IPython
                                        }
                                    } else {
                                        if i < 147 {
                                            Classifier::Framework__Jupyter
                                        } else {
                                            Classifier::Framework__Jupyter__JupyterLab
                                        }
                                    }
                                }
                            }
                        } else {
                            if i < 155 {
                                if i < 151 {
                                    if i < 149 {
                                        Classifier::Framework__Jupyter__JupyterLab__1
                                    } else {
                                        if i < 150 {
                                            Classifier::Framework__Jupyter__JupyterLab__2
                                        } else {
                                            Classifier::Framework__Jupyter__JupyterLab__3
                                        }
                                    }
                                } else {
                                    if i < 153 {
                                        if i < 152 {
                                            Classifier::Framework__Jupyter__JupyterLab__4
                                        } else {
                                            Classifier::Framework__Jupyter__JupyterLab__Extensions
                                        }
                                    } else {
                                        if i < 154 {
                                            Classifier::Framework__Jupyter__JupyterLab__Extensions__MimeRenderers
                                        } else {
                                            Classifier::Framework__Jupyter__JupyterLab__Extensions__Prebuilt
                                        }
                                    }
                                }
                            } else {
                                if i < 158 {
                                    if i < 156 {
                                        Classifier::Framework__Jupyter__JupyterLab__Extensions__Themes
                                    } else {
                                        if i < 157 {
                                            Classifier::Framework__Kedro
                                        } else {
                                            Classifier::Framework__Lektor
                                        }
                                    }
                                } else {
                                    if i < 160 {
                                        if i < 159 {
                                            Classifier::Framework__Masonite
                                        } else {
                                            Classifier::Framework__Matplotlib
                                        }
                                    } else {
                                        if i < 161 {
                                            Classifier::Framework__MkDocs
                                        } else {
                                            Classifier::Framework__Nengo
                                        }
                                    }
                                }
                            }
                        }
                    }
                } else {
                    if i < 189 {
                        if i < 175 {
                            if i < 168 {
                                if i < 165 {
                                    if i < 163 {
                                        Classifier::Framework__Odoo
                                    } else {
                                        if i < 164 {
                                            Classifier::Framework__Odoo__10_0
                                        } else {
                                            Classifier::Framework__Odoo__11_0
                                        }
                                    }
                                } else {
                                    if i < 166 {
                                        Classifier::Framework__Odoo__12_0
                                    } else {
                                        if i < 167 {
                                            Classifier::Framework__Odoo__13_0
                                        } else {
                                            Classifier::Framework__Odoo__14_0
                                        }
                                    }
                                }
                            } else {
                                if i < 171 {
                                    if i < 169 {
                                        Classifier::Framework__Odoo__15_0
                                    } else {
                                        if i < 170 {
                                            Classifier::Framework__Odoo__16_0
                                        } else {
                                            Classifier::Framework__Odoo__17_0
                                        }
                                    }
                                } else {
                                    if i < 173 {
                                        if i < 172 {
                                            Classifier::Framework__Odoo__18_0
                                        } else {
                                            Classifier::Framework__Odoo__8_0
                                        }
                                    } else {
                                        if i < 174 {
                                            Classifier::Framework__Odoo__9_0
                                        } else {
                                            Classifier::Framework__OpenTelemetry
                                        }
                                    }
                                }
                            }
                        } else {
                            if i < 182 {
                                if i < 178 {
                                    if i < 176 {
                                        Classifier::Framework__OpenTelemetry__Distros
                                    } else {
                                        if i < 177 {
                                            Classifier::Framework__OpenTelemetry__Exporters
                                        } else {
                                            Classifier::Framework__OpenTelemetry__Instrumentations
                                        }
                                    }
                                } else {
                                    if i < 180 {
                                        if i < 179 {
                                            Classifier::Framework__Opps
                                        } else {
                                            Classifier::Framework__Paste
                                        }
                                    } else {
                                        if i < 181 {
                                            Classifier::Framework__Pelican
                                        } else {
                                            Classifier::Framework__Pelican__Plugins
                                        }
                                    }
                                }
                            } else {
                                if i < 185 {
                                    if i < 183 {
                                        Classifier::Framework__Pelican__Themes
                                    } else {
                                        if i < 184 {
                                            Classifier::Framework__Plone
                                        } else {
                                            Classifier::Framework__Plone__3_2
                                        }
                                    }
                                } else {
                                    if i < 187 {
                                        if i < 186 {
                                            Classifier::Framework__Plone__3_3
                                        } else {
                                            Classifier::Framework__Plone__4_0
                                        }
                                    } else {
                                        if i < 188 {
                                            Classifier::Framework__Plone__4_1
                                        } else {
                                            Classifier::Framework__Plone__4_2
                                        }
                                    }
                                }
                            }
                        }
                    } else {
                        if i < 202 {
                            if i < 195 {
                                if i < 192 {
                                    if i < 190 {
                                        Classifier::Framework__Plone__4_3
                                    } else {
                                        if i < 191 {
                                            Classifier::Framework__Plone__5_0
                                        } else {
                                            Classifier::Framework__Plone__5_1
                                        }
                                    }
                                } else {
                                    if i < 193 {
                                        Classifier::Framework__Plone__5_2
                                    } else {
                                        if i < 194 {
                                            Classifier::Framework__Plone__5_3
                                        } else {
                                            Classifier::Framework__Plone__6_0
                                        }
                                    }
                                }
                            } else {
                                if i < 198 {
                                    if i < 196 {
                                        Classifier::Framework__Plone__6_1
                                    } else {
                                        if i < 197 {
                                            Classifier::Framework__Plone__Addon
                                        } else {
                                            Classifier::Framework__Plone__Core
                                        }
                                    }
                                } else {
                                    if i < 200 {
                                        if i < 199 {
                                            Classifier::Framework__Plone__Distribution
                                        } else {
                                            Classifier::Framework__Plone__Theme
                                        }
                                    } else {
                                        if i < 201 {
                                            Classifier::Framework__PySimpleGUI
                                        } else {
                                            Classifier::Framework__PySimpleGUI__4
                                        }
                                    }
                                }
                            }
                        } else {
                            if i < 209 {
                                if i < 205 {
                                    if i < 203 {
                                        Classifier::Framework__PySimpleGUI__5
                                    } else {
                                        if i < 204 {
                                            Classifier::Framework__Pycsou
                                        } else {
                                            Classifier::Framework__Pydantic
                                        }
                                    }
                                } else {
                                    if i < 207 {
                                        if i < 206 {
                                            Classifier::Framework__Pydantic__1
                                        } else {
                                            Classifier::Framework__Pydantic__2
                                        }
                                    } else {
                                        if i < 208 {
                                            Classifier::Framework__Pylons
                                        } else {
                                            Classifier::Framework__Pyramid
                                        }
                                    }
                                }
                            } else {
                                if i < 212 {
                                    if i < 210 {
                                        Classifier::Framework__Pytest
                                    } else {
                                        if i < 211 {
                                            Classifier::Framework__ReviewBoard
                                        } else {
                                            Classifier::Framework__RobotFramework
                                        }
                                    }
                                } else {
                                    if i < 214 {
                                        if i < 213 {
                                            Classifier::Framework__RobotFramework__Library
                                        } else {
                                            Classifier::Framework__RobotFramework__Tool
                                        }
                                    } else {
                                        if i < 215 {
                                            Classifier::Framework__Scrapy
                                        } else {
                                            Classifier::Framework__SetuptoolsPlugin
                                        }
                                    }
                                }
                            }
                        }
                    }
                }
            }
        } else {
            if i < 324 {
                if i < 270 {
                    if i < 243 {
                        if i < 229 {
                            if i < 222 {
                                if i < 219 {
                                    if i < 217 {
                                        Classifier::Framework__Sphinx
                                    } else {
                                        if i < 218 {
                                            Classifier::Framework__Sphinx__Domain
                                        } else {
                                            Classifier::Framework__Sphinx__Extension
                                        }
                                    }
                                } else {
                                    if i < 220 {
                                        Classifier::Framework__Sphinx__Theme
                                    } else {
                                        if i < 221 {
                                            Classifier::Framework__Trac
                                        } else {
                                            Classifier::Framework__Trio
                                        }
                                    }
                                }
                            } else {
                                if i < 225 {
                                    if i < 223 {
                                        Classifier::Framework__Tryton
                                    } else {
                                        if i < 224 {
                                            Classifier::Framework__TurboGears
                                        } else {
                                            Classifier::Framework__TurboGears__Applications
                                        }
                                    }
                                } else {
                                    if i < 227 {
                                        if i < 226 {
                                            Classifier::Framework__TurboGears__Widgets
                                        } else {
                                            Classifier::Framework__Twisted
                                        }
                                    } else {
                                        if i < 228 {
                                            Classifier::Framework__Wagtail
                                        } else {
                                            Classifier::Framework__Wagtail__1
                                        }
                                    }
                                }
                            }
                        } else {
                            if i < 236 {
                                if i < 232 {
                                    if i < 230 {
                                        Classifier::Framework__Wagtail__2
                                    } else {
                                        if i < 231 {
                                            Classifier::Framework__Wagtail__3
                                        } else {
                                            Classifier::Framework__Wagtail__4
                                        }
                                    }
                                } else {
                                    if i < 234 {
                                        if i < 233 {
                                            Classifier::Framework__Wagtail__5
                                        } else {
                                            Classifier::Framework__Wagtail__6
                                        }
                                    } else {
                                        if i < 235 {
                                            Classifier::Framework__ZODB
                                        } else {
                                            Classifier::Framework__Zope
                                        }
                                    }
                                }
                            } else {
                                if i < 239 {
                                    if i < 237 {
                                        Classifier::Framework__Zope__2
                                    } else {
                                        if i < 238 {
                                            Classifier::Framework__Zope__3
                                        } else {
                                            Classifier::Framework__Zope__4
                                        }
                                    }
                                } else {
                                    if i < 241 {
                                        if i < 240 {
                                            Classifier::Framework__Zope__5
                                        } else {
                                            Classifier::Framework__Zope2
                                        }
                                    } else {
                                        if i < 242 {
                                            Classifier::Framework__Zope3
                                        } else {
                                            Classifier::Framework__aiohttp
                                        }
                                    }
                                }
                            }
                        }
                    } else {
                        if i < 256 {
                            if i < 249 {
                                if i < 246 {
                                    if i < 244 {
                                        Classifier::Framework__cocotb
                                    } else {
                                        if i < 245 {
                                            Classifier::Framework__napari
                                        } else {
                                            Classifier::Framework__tox
                                        }
                                    }
                                } else {
                                    if i < 247 {
                                        Classifier::IntendedAudience__CustomerService
                                    } else {
                                        if i < 248 {
                                            Classifier::IntendedAudience__Developers
                                        } else {
                                            Classifier::IntendedAudience__Education
                                        }
                                    }
                                }
                            } else {
                                if i < 252 {
                                    if i < 250 {
                                        Classifier::IntendedAudience__EndUsersDesktop
                                    } else {
                                        if i < 251 {
                                            Classifier::IntendedAudience__FinancialandInsuranceIndustry
                                        } else {
                                            Classifier::IntendedAudience__HealthcareIndustry
                                        }
                                    }
                                } else {
                                    if i < 254 {
                                        if i < 253 {
                                            Classifier::IntendedAudience__InformationTechnology
                                        } else {
                                            Classifier::IntendedAudience__LegalIndustry
                                        }
                                    } else {
                                        if i < 255 {
                                            Classifier::IntendedAudience__Manufacturing
                                        } else {
                                            Classifier::IntendedAudience__OtherAudience
                                        }
                                    }
                                }
                            }
                        } else {
                            if i < 263 {
                                if i < 259 {
                                    if i < 257 {
                                        Classifier::IntendedAudience__Religion
                                    } else {
                                        if i < 258 {
                                            Classifier::IntendedAudience__ScienceResearch
                                        } else {
                                            Classifier::IntendedAudience__SystemAdministrators
                                        }
                                    }
                                } else {
                                    if i < 261 {
                                        if i < 260 {
                                            Classifier::IntendedAudience__TelecommunicationsIndustry
                                        } else {
                                            Classifier::License__AladdinFreePublicLicenseAFPL
                                        }
                                    } else {
                                        if i < 262 {
                                            Classifier::License__CC01_0UniversalCC01_0PublicDomainDedication
                                        } else {
                                            Classifier::License__CeCILLBFreeSoftwareLicenseAgreementCECILLB
                                        }
                                    }
                                }
                            } else {
                                if i < 266 {
                                    if i < 264 {
                                        Classifier::License__CeCILLCFreeSoftwareLicenseAgreementCECILLC
                                    } else {
                                        if i < 265 {
                                            Classifier::License__DFSGapproved
                                        } else {
                                            Classifier::License__EiffelForumLicenseEFL
                                        }
                                    }
                                } else {
                                    if i < 268 {
                                        if i < 267 {
                                            Classifier::License__FreeForEducationalUse
                                        } else {
                                            Classifier::License__FreeForHomeUse
                                        }
                                    } else {
                                        if i < 269 {
                                            Classifier::License__FreeToUseButRestricted
                                        } else {
                                            Classifier::License__Freefornoncommercialuse
                                        }
                                    }
                                }
                            }
                        }
                    }
                } else {
                    if i < 297 {
                        if i < 283 {
                            if i < 276 {
                                if i < 273 {
                                    if i < 271 {
                                        Classifier::License__FreelyDistributable
                                    } else {
                                        if i < 272 {
                                            Classifier::License__Freeware
                                        } else {
                                            Classifier::License__GUSTFontLicense1_0
                                        }
                                    }
                                } else {
                                    if i < 274 {
                                        Classifier::License__GUSTFontLicense20060930
                                    } else {
                                        if i < 275 {
                                            Classifier::License__NetscapePublicLicenseNPL
                                        } else {
                                            Classifier::License__NokiaOpenSourceLicenseNOKOS
                                        }
                                    }
                                }
                            } else {
                                if i < 279 {
                                    if i < 277 {
                                        Classifier::License__OSIApproved
                                    } else {
                                        if i < 278 {
                                            Classifier::License__OSIApproved__AcademicFreeLicenseAFL
                                        } else {
                                            Classifier::License__OSIApproved__ApacheSoftwareLicense
                                        }
                                    }
                                } else {
                                    if i < 281 {
                                        if i < 280 {
                                            Classifier::License__OSIApproved__ApplePublicSourceLicense
                                        } else {
                                            Classifier::License__OSIApproved__ArtisticLicense
                                        }
                                    } else {
                                        if i < 282 {
                                            Classifier::License__OSIApproved__AttributionAssuranceLicense
                                        } else {
                                            Classifier::License__OSIApproved__BSDLicense
                                        }
                                    }
                                }
                            }
                        } else {
                            if i < 290 {
                                if i < 286 {
                                    if i < 284 {
                                        Classifier::License__OSIApproved__BlueOakModelLicenseBlueOak1_0_0
                                    } else {
                                        if i < 285 {
                                            Classifier::License__OSIApproved__BoostSoftwareLicense1_0BSL1_0
                                        } else {
                                            Classifier::License__OSIApproved__CEACNRSInriaLogicielLibreLicense
                                        }
                                    }
                                } else {
                                    if i < 288 {
                                        if i < 287 {
                                            Classifier::License__OSIApproved__CMULicenseMITCMU
                                        } else {
                                            Classifier::License__OSIApproved__CommonDevelopmentandDistributionLicense1_0CDDL1_0
                                        }
                                    } else {
                                        if i < 289 {
                                            Classifier::License__OSIApproved__CommonPublicLicense
                                        } else {
                                            Classifier::License__OSIApproved__EclipsePublicLicense1_0EPL1_0
                                        }
                                    }
                                }
                            } else {
                                if i < 293 {
                                    if i < 291 {
                                        Classifier::License__OSIApproved__EclipsePublicLicense2_0EPL2_0
                                    } else {
                                        if i < 292 {
                                            Classifier::License__OSIApproved__EducationalCommunityLicense
                                        } else {
                                            Classifier::License__OSIApproved__EiffelForumLicense
                                        }
                                    }
                                } else {
                                    if i < 295 {
                                        if i < 294 {
                                            Classifier::License__OSIApproved__EuropeanUnionPublicLicence1_0EUPL1_0
                                        } else {
                                            Classifier::License__OSIApproved__EuropeanUnionPublicLicence1_1EUPL1_1
                                        }
                                    } else {
                                        if i < 296 {
                                            Classifier::License__OSIApproved__EuropeanUnionPublicLicence1_2EUPL1_2
                                        } else {
                                            Classifier::License__OSIApproved__GNUAfferoGeneralPublicLicensev3
                                        }
                                    }
                                }
                            }
                        }
                    } else {
                        if i < 310 {
                            if i < 303 {
                                if i < 300 {
                                    if i < 298 {
                                        Classifier::License__OSIApproved__GNUAfferoGeneralPublicLicensev3orlaterAGPLv3plus
                                    } else {
                                        if i < 299 {
                                            Classifier::License__OSIApproved__GNUFreeDocumentationLicenseFDL
                                        } else {
                                            Classifier::License__OSIApproved__GNUGeneralPublicLicenseGPL
                                        }
                                    }
                                } else {
                                    if i < 301 {
                                        Classifier::License__OSIApproved__GNUGeneralPublicLicensev2GPLv2
                                    } else {
                                        if i < 302 {
                                            Classifier::License__OSIApproved__GNUGeneralPublicLicensev2orlaterGPLv2plus
                                        } else {
                                            Classifier::License__OSIApproved__GNUGeneralPublicLicensev3GPLv3
                                        }
                                    }
                                }
                            } else {
                                if i < 306 {
                                    if i < 304 {
                                        Classifier::License__OSIApproved__GNUGeneralPublicLicensev3orlaterGPLv3plus
                                    } else {
                                        if i < 305 {
                                            Classifier::License__OSIApproved__GNULesserGeneralPublicLicensev2LGPLv2
                                        } else {
                                            Classifier::License__OSIApproved__GNULesserGeneralPublicLicensev2orlaterLGPLv2plus
                                        }
                                    }
                                } else {
                                    if i < 308 {
                                        if i < 307 {
                                            Classifier::License__OSIApproved__GNULesserGeneralPublicLicensev3LGPLv3
                                        } else {
                                            Classifier::License__OSIApproved__GNULesserGeneralPublicLicensev3orlaterLGPLv3plus
                                        }
                                    } else {
                                        if i < 309 {
                                            Classifier::License__OSIApproved__GNULibraryorLesserGeneralPublicLicenseLGPL
                                        } else {
                                            Classifier::License__OSIApproved__HistoricalPermissionNoticeandDisclaimerHPND
                                        }
                                    }
                                }
                            }
                        } else {
                            if i < 317 {
                                if i < 313 {
                                    if i < 311 {
                                        Classifier::License__OSIApproved__IBMPublicLicense
                                    } else {
                                        if i < 312 {
                                            Classifier::License__OSIApproved__ISCLicenseISCL
                                        } else {
                                            Classifier::License__OSIApproved__IntelOpenSourceLicense
                                        }
                                    }
                                } else {
                                    if i < 315 {
                                        if i < 314 {
                                            Classifier::License__OSIApproved__JabberOpenSourceLicense
                                        } else {
                                            Classifier::License__OSIApproved__MITLicense
                                        }
                                    } else {
                                        if i < 316 {
                                            Classifier::License__OSIApproved__MITNoAttributionLicenseMIT0
                                        } else {
                                            Classifier::License__OSIApproved__MITRECollaborativeVirtualWorkspaceLicenseCVW
                                        }
                                    }
                                }
                            } else {
                                if i < 320 {
                                    if i < 318 {
                                        Classifier::License__OSIApproved__MirOSLicenseMirOS
                                    } else {
                                        if i < 319 {
                                            Classifier::License__OSIApproved__MotosotoLicense
                                        } else {
                                            Classifier::License__OSIApproved__MozillaPublicLicense1_0MPL
                                        }
                                    }
                                } else {
                                    if i < 322 {
                                        if i < 321 {
                                            Classifier::License__OSIApproved__MozillaPublicLicense1_1MPL1_1
                                        } else {
                                            Classifier::License__OSIApproved__MozillaPublicLicense2_0MPL2_0
                                        }
                                    } else {
                                        if i < 323 {
                                            Classifier::License__OSIApproved__MulanPermissiveSoftwareLicensev2MulanPSL2_0
                                        } else {
                                            Classifier::License__OSIApproved__NASAOpenSourceAgreementv1_3NASA1_3
                                        }
                                    }
                                }
                            }
                        }
                    }
                }
            } else {
                if i < 378 {
                    if i < 351 {
                        if i < 337 {
                            if i < 330 {
                                if i < 327 {
                                    if i < 325 {
                                        Classifier::License__OSIApproved__NethackGeneralPublicLicense
                                    } else {
                                        if i < 326 {
                                            Classifier::License__OSIApproved__NokiaOpenSourceLicense
                                        } else {
                                            Classifier::License__OSIApproved__OpenGroupTestSuiteLicense
                                        }
                                    }
                                } else {
                                    if i < 328 {
                                        Classifier::License__OSIApproved__OpenSoftwareLicense3_0OSL3_0
                                    } else {
                                        if i < 329 {
                                            Classifier::License__OSIApproved__PostgreSQLLicense
                                        } else {
                                            Classifier::License__OSIApproved__PythonLicenseCNRIPythonLicense
                                        }
                                    }
                                }
                            } else {
                                if i < 333 {
                                    if i < 331 {
                                        Classifier::License__OSIApproved__PythonSoftwareFoundationLicense
                                    } else {
                                        if i < 332 {
                                            Classifier::License__OSIApproved__QtPublicLicenseQPL
                                        } else {
                                            Classifier::License__OSIApproved__RicohSourceCodePublicLicense
                                        }
                                    }
                                } else {
                                    if i < 335 {
                                        if i < 334 {
                                            Classifier::License__OSIApproved__SILOpenFontLicense1_1OFL1_1
                                        } else {
                                            Classifier::License__OSIApproved__SleepycatLicense
                                        }
                                    } else {
                                        if i < 336 {
                                            Classifier::License__OSIApproved__SunIndustryStandardsSourceLicenseSISSL
                                        } else {
                                            Classifier::License__OSIApproved__SunPublicLicense
                                        }
                                    }
                                }
                            }
                        } else {
                            if i < 344 {
                                if i < 340 {
                                    if i < 338 {
                                        Classifier::License__OSIApproved__TheUnlicenseUnlicense
                                    } else {
                                        if i < 339 {
                                            Classifier::License__OSIApproved__UniversalPermissiveLicenseUPL
                                        } else {
                                            Classifier::License__OSIApproved__UniversityofIllinoisNCSAOpenSourceLicense
                                        }
                                    }
                                } else {
                                    if i < 342 {
                                        if i < 341 {
                                            Classifier::License__OSIApproved__VovidaSoftwareLicense1_0
                                        } else {
                                            Classifier::License__OSIApproved__W3CLicense
                                        }
                                    } else {
                                        if i < 343 {
                                            Classifier::License__OSIApproved__X_NetLicense
                                        } else {
                                            Classifier::License__OSIApproved__ZeroClauseBSD0BSD
                                        }
                                    }
                                }
                            } else {
                                if i < 347 {
                                    if i < 345 {
                                        Classifier::License__OSIApproved__ZopePublicLicense
                                    } else {
                                        if i < 346 {
                                            Classifier::License__OSIApproved__zliblibpngLicense
                                        } else {
                                            Classifier::License__OtherProprietaryLicense
                                        }
                                    }
                                } else {
                                    if i < 349 {
                                        if i < 348 {
                                            Classifier::License__PublicDomain
                                        } else {
                                            Classifier::License__RepozePublicLicense
                                        }
                                    } else {
                                        if i < 350 {
                                            Classifier::NaturalLanguage__Afrikaans
                                        } else {
                                            Classifier::NaturalLanguage__Arabic
                                        }
                                    }
                                }
                            }
                        }
                    } else {
                        if i < 364 {
                            if i < 357 {
                                if i < 354 {
                                    if i < 352 {
                                        Classifier::NaturalLanguage__Basque
                                    } else {
                                        if i < 353 {
                                            Classifier::NaturalLanguage__Bengali
                                        } else {
                                            Classifier::NaturalLanguage__Bosnian
                                        }
                                    }
                                } else {
                                    if i < 355 {
                                        Classifier::NaturalLanguage__Bulgarian
                                    } else {
                                        if i < 356 {
                                            Classifier::NaturalLanguage__Cantonese
                                        } else {
                                            Classifier::NaturalLanguage__Catalan
                                        }
                                    }
                                }
                            } else {
                                if i < 360 {
                                    if i < 358 {
                                        Classifier::NaturalLanguage__CatalanValencian
                                    } else {
                                        if i < 359 {
                                            Classifier::NaturalLanguage__ChineseSimplified
                                        } else {
                                            Classifier::NaturalLanguage__ChineseTraditional
                                        }
                                    }
                                } else {
                                    if i < 362 {
                                        if i < 361 {
                                            Classifier::NaturalLanguage__Croatian
                                        } else {
                                            Classifier::NaturalLanguage__Czech
                                        }
                                    } else {
                                        if i < 363 {
                                            Classifier::NaturalLanguage__Danish
                                        } else {
                                            Classifier::NaturalLanguage__Dutch
                                        }
                                    }
                                }
                            }
                        } else {
                            if i < 371 {
                                if i < 367 {
                                    if i < 365 {
                                        Classifier::NaturalLanguage__English
                                    } else {
                                        if i < 366 {
                                            Classifier::NaturalLanguage__Esperanto
                                        } else {
                                            Classifier::NaturalLanguage__Finnish
                                        }
                                    }
                                } else {
                                    if i < 369 {
                                        if i < 368 {
                                            Classifier::NaturalLanguage__French
                                        } else {
                                            Classifier::NaturalLanguage__Galician
                                        }
                                    } else {
                                        if i < 370 {
                                            Classifier::NaturalLanguage__Georgian
                                        } else {
                                            Classifier::NaturalLanguage__German
                                        }
                                    }
                                }
                            } else {
                                if i < 374 {
                                    if i < 372 {
                                        Classifier::NaturalLanguage__Greek
                                    } else {
                                        if i < 373 {
                                            Classifier::NaturalLanguage__Hebrew
                                        } else {
                                            Classifier::NaturalLanguage__Hindi
                                        }
                                    }
                                } else {
                                    if i < 376 {
                                        if i < 375 {
                                            Classifier::NaturalLanguage__Hungarian
                                        } else {
                                            Classifier::NaturalLanguage__Icelandic
                                        }
                                    } else {
                                        if i < 377 {
                                            Classifier::NaturalLanguage__Indonesian
                                        } else {
                                            Classifier::NaturalLanguage__Irish
                                        }
                                    }
                                }
                            }
                        }
                    }
                } else {
                    if i < 405 {
                        if i < 391 {
                            if i < 384 {
                                if i < 381 {
                                    if i < 379 {
                                        Classifier::NaturalLanguage__Italian
                                    } else {
                                        if i < 380 {
                                            Classifier::NaturalLanguage__Japanese
                                        } else {
                                            Classifier::NaturalLanguage__Javanese
                                        }
                                    }
                                } else {
                                    if i < 382 {
                                        Classifier::NaturalLanguage__Korean
                                    } else {
                                        if i < 383 {
                                            Classifier::NaturalLanguage__Latin
                                        } else {
                                            Classifier::NaturalLanguage__Latvian
                                        }
                                    }
                                }
                            } else {
                                if i < 387 {
                                    if i < 385 {
                                        Classifier::NaturalLanguage__Lithuanian
                                    } else {
                                        if i < 386 {
                                            Classifier::NaturalLanguage__Macedonian
                                        } else {
                                            Classifier::NaturalLanguage__Malay
                                        }
                                    }
                                } else {
                                    if i < 389 {
                                        if i < 388 {
                                            Classifier::NaturalLanguage__Marathi
                                        } else {
                                            Classifier::NaturalLanguage__Nepali
                                        }
                                    } else {
                                        if i < 390 {
                                            Classifier::NaturalLanguage__Norwegian
                                        } else {
                                            Classifier::NaturalLanguage__Panjabi
                                        }
                                    }
                                }
                            }
                        } else {
                            if i < 398 {
                                if i < 394 {
                                    if i < 392 {
                                        Classifier::NaturalLanguage__Persian
                                    } else {
                                        if i < 393 {
                                            Classifier::NaturalLanguage__Polish
                                        } else {
                                            Classifier::NaturalLanguage__Portuguese
                                        }
                                    }
                                } else {
                                    if i < 396 {
                                        if i < 395 {
                                            Classifier::NaturalLanguage__PortugueseBrazilian
                                        } else {
                                            Classifier::NaturalLanguage__Romanian
                                        }
                                    } else {
                                        if i < 397 {
                                            Classifier::NaturalLanguage__Russian
                                        } else {
                                            Classifier::NaturalLanguage__Serbian
                                        }
                                    }
                                }
                            } else {
                                if i < 401 {
                                    if i < 399 {
                                        Classifier::NaturalLanguage__Slovak
                                    } else {
                                        if i < 400 {
                                            Classifier::NaturalLanguage__Slovenian
                                        } else {
                                            Classifier::NaturalLanguage__Spanish
                                        }
                                    }
                                } else {
                                    if i < 403 {
                                        if i < 402 {
                                            Classifier::NaturalLanguage__Swedish
                                        } else {
                                            Classifier::NaturalLanguage__Tamil
                                        }
                                    } else {
                                        if i < 404 {
                                            Classifier::NaturalLanguage__Telugu
                                        } else {
                                            Classifier::NaturalLanguage__Thai
                                        }
                                    }
                                }
                            }
                        }
                    } else {
                        if i < 418 {
                            if i < 411 {
                                if i < 408 {
                                    if i < 406 {
                                        Classifier::NaturalLanguage__Tibetan
                                    } else {
                                        if i < 407 {
                                            Classifier::NaturalLanguage__Turkish
                                        } else {
                                            Classifier::NaturalLanguage__Ukrainian
                                        }
                                    }
                                } else {
                                    if i < 409 {
                                        Classifier::NaturalLanguage__Urdu
                                    } else {
                                        if i < 410 {
                                            Classifier::NaturalLanguage__Vietnamese
                                        } else {
                                            Classifier::OperatingSystem__Android
                                        }
                                    }
                                }
                            } else {
                                if i < 414 {
                                    if i < 412 {
                                        Classifier::OperatingSystem__BeOS
                                    } else {
                                        if i < 413 {
                                            Classifier::OperatingSystem__MacOS
                                        } else {
                                            Classifier::OperatingSystem__MacOS__MacOS9
                                        }
                                    }
                                } else {
                                    if i < 416 {
                                        if i < 415 {
                                            Classifier::OperatingSystem__MacOS__MacOSX
                                        } else {
                                            Classifier::OperatingSystem__Microsoft
                                        }
                                    } else {
                                        if i < 417 {
                                            Classifier::OperatingSystem__Microsoft__MSDOS
                                        } else {
                                            Classifier::OperatingSystem__Microsoft__Windows
                                        }
                                    }
                                }
                            }
                        } else {
                            if i < 425 {
                                if i < 421 {
                                    if i < 419 {
                                        Classifier::OperatingSystem__Microsoft__Windows__Windows10
                                    } else {
                                        if i < 420 {
                                            Classifier::OperatingSystem__Microsoft__Windows__Windows11
                                        } else {
                                            Classifier::OperatingSystem__Microsoft__Windows__Windows3_1orEarlier
                                        }
                                    }
                                } else {
                                    if i < 423 {
                                        if i < 422 {
                                            Classifier::OperatingSystem__Microsoft__Windows__Windows7
                                        } else {
                                            Classifier::OperatingSystem__Microsoft__Windows__Windows8
                                        }
                                    } else {
                                        if i < 424 {
                                            Classifier::OperatingSystem__Microsoft__Windows__Windows8_1
                                        } else {
                                            Classifier::OperatingSystem__Microsoft__Windows__Windows95982000
                                        }
                                    }
                                }
                            } else {
                                if i < 428 {
                                    if i < 426 {
                                        Classifier::OperatingSystem__Microsoft__Windows__WindowsCE
                                    } else {
                                        if i < 427 {
                                            Classifier::OperatingSystem__Microsoft__Windows__WindowsNT2000
                                        } else {
                                            Classifier::OperatingSystem__Microsoft__Windows__WindowsServer2003
                                        }
                                    }
                                } else {
                                    if i < 430 {
                                        if i < 429 {
                                            Classifier::OperatingSystem__Microsoft__Windows__WindowsServer2008
                                        } else {
                                            Classifier::OperatingSystem__Microsoft__Windows__WindowsVista
                                        }
                                    } else {
                                        if i < 431 {
                                            Classifier::OperatingSystem__Microsoft__Windows__WindowsXP
                                        } else {
                                            Classifier::OperatingSystem__OSIndependent
                                        }
                                    }
                                }
                            }
                        }
                    }
                }
            }
        }
    } else {
        if i < 648 {
            if i < 540 {
                if i < 486 {
                    if i < 459 {
                        if i < 445 {
                            if i < 438 {
                                if i < 435 {
                                    if i < 433 {
                                        Classifier::OperatingSystem__OS2
                                    } else {
                                        if i < 434 {
                                            Classifier::OperatingSystem__OtherOS
                                        } else {
                                            Classifier::OperatingSystem__PDASystems
                                        }
                                    }
                                } else {
                                    if i < 436 {
                                        Classifier::OperatingSystem__POSIX
                                    } else {
                                        if i < 437 {
                                            Classifier::OperatingSystem__POSIX__AIX
                                        } else {
                                            Classifier::OperatingSystem__POSIX__BSD
                                        }
                                    }
                                }
                            } else {
                                if i < 441 {
                                    if i < 439 {
                                        Classifier::OperatingSystem__POSIX__BSD__BSDOS
                                    } else {
                                        if i < 440 {
                                            Classifier::OperatingSystem__POSIX__BSD__FreeBSD
                                        } else {
                                            Classifier::OperatingSystem__POSIX__BSD__NetBSD
                                        }
                                    }
                                } else {
                                    if i < 443 {
                                        if i < 442 {
                                            Classifier::OperatingSystem__POSIX__BSD__OpenBSD
                                        } else {
                                            Classifier::OperatingSystem__POSIX__GNUHurd
                                        }
                                    } else {
                                        if i < 444 {
                                            Classifier::OperatingSystem__POSIX__HPUX
                                        } else {
                                            Classifier::OperatingSystem__POSIX__IRIX
                                        }
                                    }
                                }
                            }
                        } else {
                            if i < 452 {
                                if i < 448 {
                                    if i < 446 {
                                        Classifier::OperatingSystem__POSIX__Linux
                                    } else {
                                        if i < 447 {
                                            Classifier::OperatingSystem__POSIX__Other
                                        } else {
                                            Classifier::OperatingSystem__POSIX__SCO
                                        }
                                    }
                                } else {
                                    if i < 450 {
                                        if i < 449 {
                                            Classifier::OperatingSystem__POSIX__SunOSSolaris
                                        } else {
                                            Classifier::OperatingSystem__PalmOS
                                        }
                                    } else {
                                        if i < 451 {
                                            Classifier::OperatingSystem__RISCOS
                                        } else {
                                            Classifier::OperatingSystem__Unix
                                        }
                                    }
                                }
                            } else {
                                if i < 455 {
                                    if i < 453 {
                                        Classifier::OperatingSystem__iOS
                                    } else {
                                        if i < 454 {
                                            Classifier::ProgrammingLanguage__APL
                                        } else {
                                            Classifier::ProgrammingLanguage__ASP
                                        }
                                    }
                                } else {
                                    if i < 457 {
                                        if i < 456 {
                                            Classifier::ProgrammingLanguage__Ada
                                        } else {
                                            Classifier::ProgrammingLanguage__Assembly
                                        }
                                    } else {
                                        if i < 458 {
                                            Classifier::ProgrammingLanguage__Awk
                                        } else {
                                            Classifier::ProgrammingLanguage__Basic
                                        }
                                    }
                                }
                            }
                        }
                    } else {
                        if i < 472 {
                            if i < 465 {
                                if i < 462 {
                                    if i < 460 {
                                        Classifier::ProgrammingLanguage__C
                                    } else {
                                        if i < 461 {
                                            Classifier::ProgrammingLanguage__Csharp
                                        } else {
                                            Classifier::ProgrammingLanguage__Cplusplus
                                        }
                                    }
                                } else {
                                    if i < 463 {
                                        Classifier::ProgrammingLanguage__ColdFusion
                                    } else {
                                        if i < 464 {
                                            Classifier::ProgrammingLanguage__Cython
                                        } else {
                                            Classifier::ProgrammingLanguage__D
                                        }
                                    }
                                }
                            } else {
                                if i < 468 {
                                    if i < 466 {
                                        Classifier::ProgrammingLanguage__DelphiKylix
                                    } else {
                                        if i < 467 {
                                            Classifier::ProgrammingLanguage__Dylan
                                        } else {
                                            Classifier::ProgrammingLanguage__Eiffel
                                        }
                                    }
                                } else {
                                    if i < 470 {
                                        if i < 469 {
                                            Classifier::ProgrammingLanguage__EmacsLisp
                                        } else {
                                            Classifier::ProgrammingLanguage__Erlang
                                        }
                                    } else {
                                        if i < 471 {
                                            Classifier::ProgrammingLanguage__Euler
                                        } else {
                                            Classifier::ProgrammingLanguage__Euphoria
                                        }
                                    }
                                }
                            }
                        } else {
                            if i < 479 {
                                if i < 475 {
                                    if i < 473 {
                                        Classifier::ProgrammingLanguage__Fsharp
                                    } else {
                                        if i < 474 {
                                            Classifier::ProgrammingLanguage__Forth
                                        } else {
                                            Classifier::ProgrammingLanguage__Fortran
                                        }
                                    }
                                } else {
                                    if i < 477 {
                                        if i < 476 {
                                            Classifier::ProgrammingLanguage__Go
                                        } else {
                                            Classifier::ProgrammingLanguage__Haskell
                                        }
                                    } else {
                                        if i < 478 {
                                            Classifier::ProgrammingLanguage__Hy
                                        } else {
                                            Classifier::ProgrammingLanguage__Java
                                        }
                                    }
                                }
                            } else {
                                if i < 482 {
                                    if i < 480 {
                                        Classifier::ProgrammingLanguage__JavaScript
                                    } else {
                                        if i < 481 {
                                            Classifier::ProgrammingLanguage__Kotlin
                                        } else {
                                            Classifier::ProgrammingLanguage__Lisp
                                        }
                                    }
                                } else {
                                    if i < 484 {
                                        if i < 483 {
                                            Classifier::ProgrammingLanguage__Logo
                                        } else {
                                            Classifier::ProgrammingLanguage__Lua
                                        }
                                    } else {
                                        if i < 485 {
                                            Classifier::ProgrammingLanguage__ML
                                        } else {
                                            Classifier::ProgrammingLanguage__Modula
                                        }
                                    }
                                }
                            }
                        }
                    }
                } else {
                    if i < 513 {
                        if i < 499 {
                            if i < 492 {
                                if i < 489 {
                                    if i < 487 {
                                        Classifier::ProgrammingLanguage__OCaml
                                    } else {
                                        if i < 488 {
                                            Classifier::ProgrammingLanguage__ObjectPascal
                                        } else {
                                            Classifier::ProgrammingLanguage__ObjectiveC
                                        }
                                    }
                                } else {
                                    if i < 490 {
                                        Classifier::ProgrammingLanguage__Other
                                    } else {
                                        if i < 491 {
                                            Classifier::ProgrammingLanguage__OtherScriptingEngines
                                        } else {
                                            Classifier::ProgrammingLanguage__PHP
                                        }
                                    }
                                }
                            } else {
                                if i < 495 {
                                    if i < 493 {
                                        Classifier::ProgrammingLanguage__PLSQL
                                    } else {
                                        if i < 494 {
                                            Classifier::ProgrammingLanguage__PROGRESS
                                        } else {
                                            Classifier::ProgrammingLanguage__Pascal
                                        }
                                    }
                                } else {
                                    if i < 497 {
                                        if i < 496 {
                                            Classifier::ProgrammingLanguage__Perl
                                        } else {
                                            Classifier::ProgrammingLanguage__Pike
                                        }
                                    } else {
                                        if i < 498 {
                                            Classifier::ProgrammingLanguage__Pliant
                                        } else {
                                            Classifier::ProgrammingLanguage__Prolog
                                        }
                                    }
                                }
                            }
                        } else {
                            if i < 506 {
                                if i < 502 {
                                    if i < 500 {
                                        Classifier::ProgrammingLanguage__Python
                                    } else {
                                        if i < 501 {
                                            Classifier::ProgrammingLanguage__Python__2
                                        } else {
                                            Classifier::ProgrammingLanguage__Python__2__Only
                                        }
                                    }
                                } else {
                                    if i < 504 {
                                        if i < 503 {
                                            Classifier::ProgrammingLanguage__Python__2_3
                                        } else {
                                            Classifier::ProgrammingLanguage__Python__2_4
                                        }
                                    } else {
                                        if i < 505 {
                                            Classifier::ProgrammingLanguage__Python__2_5
                                        } else {
                                            Classifier::ProgrammingLanguage__Python__2_6
                                        }
                                    }
                                }
                            } else {
                                if i < 509 {
                                    if i < 507 {
                                        Classifier::ProgrammingLanguage__Python__2_7
                                    } else {
                                        if i < 508 {
                                            Classifier::ProgrammingLanguage__Python__3
                                        } else {
                                            Classifier::ProgrammingLanguage__Python__3__Only
                                        }
                                    }
                                } else {
                                    if i < 511 {
                                        if i < 510 {
                                            Classifier::ProgrammingLanguage__Python__3_0
                                        } else {
                                            Classifier::ProgrammingLanguage__Python__3_1
                                        }
                                    } else {
                                        if i < 512 {
                                            Classifier::ProgrammingLanguage__Python__3_10
                                        } else {
                                            Classifier::ProgrammingLanguage__Python__3_11
                                        }
                                    }
                                }
                            }
                        }
                    } else {
                        if i < 526 {
                            if i < 519 {
                                if i < 516 {
                                    if i < 514 {
                                        Classifier::ProgrammingLanguage__Python__3_12
                                    } else {
                                        if i < 515 {
                                            Classifier::ProgrammingLanguage__Python__3_13
                                        } else {
                                            Classifier::ProgrammingLanguage__Python__3_14
                                        }
                                    }
                                } else {
                                    if i < 517 {
                                        Classifier::ProgrammingLanguage__Python__3_2
                                    } else {
                                        if i < 518 {
                                            Classifier::ProgrammingLanguage__Python__3_3
                                        } else {
                                            Classifier::ProgrammingLanguage__Python__3_4
                                        }
                                    }
                                }
                            } else {
                                if i < 522 {
                                    if i < 520 {
                                        Classifier::ProgrammingLanguage__Python__3_5
                                    } else {
                                        if i < 521 {
                                            Classifier::ProgrammingLanguage__Python__3_6
                                        } else {
                                            Classifier::ProgrammingLanguage__Python__3_7
                                        }
                                    }
                                } else {
                                    if i < 524 {
                                        if i < 523 {
                                            Classifier::ProgrammingLanguage__Python__3_8
                                        } else {
                                            Classifier::ProgrammingLanguage__Python__3_9
                                        }
                                    } else {
                                        if i < 525 {
                                            Classifier::ProgrammingLanguage__Python__Implementation
                                        } else {
                                            Classifier::ProgrammingLanguage__Python__Implementation__CPython
                                        }
                                    }
                                }
                            }
                        } else {
                            if i < 533 {
                                if i < 529 {
                                    if i < 527 {
                                        Classifier::ProgrammingLanguage__Python__Implementation__IronPython
                                    } else {
                                        if i < 528 {
                                            Classifier::ProgrammingLanguage__Python__Implementation__Jython
                                        } else {
                                            Classifier::ProgrammingLanguage__Python__Implementation__MicroPython
                                        }
                                    }
                                } else {
                                    if i < 531 {
                                        if i < 530 {
                                            Classifier::ProgrammingLanguage__Python__Implementation__PyPy
                                        } else {
                                            Classifier::ProgrammingLanguage__Python__Implementation__Stackless
                                        }
                                    } else {
                                        if i < 532 {
                                            Classifier::ProgrammingLanguage__R
                                        } else {
                                            Classifier::ProgrammingLanguage__REBOL
                                        }
                                    }
                                }
                            } else {
                                if i < 536 {
                                    if i < 534 {
                                        Classifier::ProgrammingLanguage__Rexx
                                    } else {
                                        if i < 535 {
                                            Classifier::ProgrammingLanguage__Ruby
                                        } else {
                                            Classifier::ProgrammingLanguage__Rust
                                        }
                                    }
                                } else {
                                    if i < 538 {
                                        if i < 537 {
                                            Classifier::ProgrammingLanguage__SQL
                                        } else {
                                            Classifier::ProgrammingLanguage__Scheme
                                        }
                                    } else {
                                        if i < 539 {
                                            Classifier::ProgrammingLanguage__Simula
                                        } else {
                                            Classifier::ProgrammingLanguage__Smalltalk
                                        }
                                    }
                                }
                            }
                        }
                    }
                }
            } else {
                if i < 594 {
                    if i < 567 {
                        if i < 553 {
                            if i < 546 {
                                if i < 543 {
                                    if i < 541 {
                                        Classifier::ProgrammingLanguage__Tcl
                                    } else {
                                        if i < 542 {
                                            Classifier::ProgrammingLanguage__UnixShell
                                        } else {
                                            Classifier::ProgrammingLanguage__VisualBasic
                                        }
                                    }
                                } else {
                                    if i < 544 {
                                        Classifier::ProgrammingLanguage__XBasic
                                    } else {
                                        if i < 545 {
                                            Classifier::ProgrammingLanguage__YACC
                                        } else {
                                            Classifier::ProgrammingLanguage__Zope
                                        }
                                    }
                                }
                            } else {
                                if i < 549 {
                                    if i < 547 {
                                        Classifier::Topic__AdaptiveTechnologies
                                    } else {
                                        if i < 548 {
                                            Classifier::Topic__ArtisticSoftware
                                        } else {
                                            Classifier::Topic__Communications
                                        }
                                    }
                                } else {
                                    if i < 551 {
                                        if i < 550 {
                                            Classifier::Topic__Communications__BBS
                                        } else {
                                            Classifier::Topic__Communications__Chat
                                        }
                                    } else {
                                        if i < 552 {
                                            Classifier::Topic__Communications__Chat__ICQ
                                        } else {
                                            Classifier::Topic__Communications__Chat__InternetRelayChat
                                        }
                                    }
                                }
                            }
                        } else {
                            if i < 560 {
                                if i < 556 {
                                    if i < 554 {
                                        Classifier::Topic__Communications__Chat__UnixTalk
                                    } else {
                                        if i < 555 {
                                            Classifier::Topic__Communications__Conferencing
                                        } else {
                                            Classifier::Topic__Communications__Email
                                        }
                                    }
                                } else {
                                    if i < 558 {
                                        if i < 557 {
                                            Classifier::Topic__Communications__Email__AddressBook
                                        } else {
                                            Classifier::Topic__Communications__Email__EmailClientsMUA
                                        }
                                    } else {
                                        if i < 559 {
                                            Classifier::Topic__Communications__Email__Filters
                                        } else {
                                            Classifier::Topic__Communications__Email__MailTransportAgents
                                        }
                                    }
                                }
                            } else {
                                if i < 563 {
                                    if i < 561 {
                                        Classifier::Topic__Communications__Email__MailingListServers
                                    } else {
                                        if i < 562 {
                                            Classifier::Topic__Communications__Email__PostOffice
                                        } else {
                                            Classifier::Topic__Communications__Email__PostOffice__IMAP
                                        }
                                    }
                                } else {
                                    if i < 565 {
                                        if i < 564 {
                                            Classifier::Topic__Communications__Email__PostOffice__POP3
                                        } else {
                                            Classifier::Topic__Communications__FIDO
                                        }
                                    } else {
                                        if i < 566 {
                                            Classifier::Topic__Communications__Fax
                                        } else {
                                            Classifier::Topic__Communications__FileSharing
                                        }
                                    }
                                }
                            }
                        }
                    } else {
                        if i < 580 {
                            if i < 573 {
                                if i < 570 {
                                    if i < 568 {
                                        Classifier::Topic__Communications__FileSharing__Gnutella
                                    } else {
                                        if i < 569 {
                                            Classifier::Topic__Communications__FileSharing__Napster
                                        } else {
                                            Classifier::Topic__Communications__HamRadio
                                        }
                                    }
                                } else {
                                    if i < 571 {
                                        Classifier::Topic__Communications__InternetPhone
                                    } else {
                                        if i < 572 {
                                            Classifier::Topic__Communications__Telephony
                                        } else {
                                            Classifier::Topic__Communications__UsenetNews
                                        }
                                    }
                                }
                            } else {
                                if i < 576 {
                                    if i < 574 {
                                        Classifier::Topic__Database
                                    } else {
                                        if i < 575 {
                                            Classifier::Topic__Database__DatabaseEnginesServers
                                        } else {
                                            Classifier::Topic__Database__FrontEnds
                                        }
                                    }
                                } else {
                                    if i < 578 {
                                        if i < 577 {
                                            Classifier::Topic__DesktopEnvironment
                                        } else {
                                            Classifier::Topic__DesktopEnvironment__FileManagers
                                        }
                                    } else {
                                        if i < 579 {
                                            Classifier::Topic__DesktopEnvironment__GNUstep
                                        } else {
                                            Classifier::Topic__DesktopEnvironment__Gnome
                                        }
                                    }
                                }
                            }
                        } else {
                            if i < 587 {
                                if i < 583 {
                                    if i < 581 {
                                        Classifier::Topic__DesktopEnvironment__KDesktopEnvironmentKDE
                                    } else {
                                        if i < 582 {
                                            Classifier::Topic__DesktopEnvironment__KDesktopEnvironmentKDE__Themes
                                        } else {
                                            Classifier::Topic__DesktopEnvironment__PicoGUI
                                        }
                                    }
                                } else {
                                    if i < 585 {
                                        if i < 584 {
                                            Classifier::Topic__DesktopEnvironment__PicoGUI__Applications
                                        } else {
                                            Classifier::Topic__DesktopEnvironment__PicoGUI__Themes
                                        }
                                    } else {
                                        if i < 586 {
                                            Classifier::Topic__DesktopEnvironment__ScreenSavers
                                        } else {
                                            Classifier::Topic__DesktopEnvironment__WindowManagers
                                        }
                                    }
                                }
                            } else {
                                if i < 590 {
                                    if i < 588 {
                                        Classifier::Topic__DesktopEnvironment__WindowManagers__Afterstep
                                    } else {
                                        if i < 589 {
                                            Classifier::Topic__DesktopEnvironment__WindowManagers__Afterstep__Themes
                                        } else {
                                            Classifier::Topic__DesktopEnvironment__WindowManagers__Applets
                                        }
                                    }
                                } else {
                                    if i < 592 {
                                        if i < 591 {
                                            Classifier::Topic__DesktopEnvironment__WindowManagers__Blackbox
                                        } else {
                                            Classifier::Topic__DesktopEnvironment__WindowManagers__Blackbox__Themes
                                        }
                                    } else {
                                        if i < 593 {
                                            Classifier::Topic__DesktopEnvironment__WindowManagers__CTWM
                                        } else {
                                            Classifier::Topic__DesktopEnvironment__WindowManagers__CTWM__Themes
                                        }
                                    }
                                }
                            }
                        }
                    }
                } else {
                    if i < 621 {
                        if i < 607 {
                            if i < 600 {
                                if i < 597 {
                                    if i < 595 {
                                        Classifier::Topic__DesktopEnvironment__WindowManagers__Enlightenment
                                    } else {
                                        if i < 596 {
                                            Classifier::Topic__DesktopEnvironment__WindowManagers__Enlightenment__Epplets
                                        } else {
                                            Classifier::Topic__DesktopEnvironment__WindowManagers__Enlightenment__ThemesDR15
                                        }
                                    }
                                } else {
                                    if i < 598 {
                                        Classifier::Topic__DesktopEnvironment__WindowManagers__Enlightenment__ThemesDR16
                                    } else {
                                        if i < 599 {
                                            Classifier::Topic__DesktopEnvironment__WindowManagers__Enlightenment__ThemesDR17
                                        } else {
                                            Classifier::Topic__DesktopEnvironment__WindowManagers__FVWM
                                        }
                                    }
                                }
                            } else {
                                if i < 603 {
                                    if i < 601 {
                                        Classifier::Topic__DesktopEnvironment__WindowManagers__FVWM__Themes
                                    } else {
                                        if i < 602 {
                                            Classifier::Topic__DesktopEnvironment__WindowManagers__Fluxbox
                                        } else {
                                            Classifier::Topic__DesktopEnvironment__WindowManagers__Fluxbox__Themes
                                        }
                                    }
                                } else {
                                    if i < 605 {
                                        if i < 604 {
                                            Classifier::Topic__DesktopEnvironment__WindowManagers__IceWM
                                        } else {
                                            Classifier::Topic__DesktopEnvironment__WindowManagers__IceWM__Themes
                                        }
                                    } else {
                                        if i < 606 {
                                            Classifier::Topic__DesktopEnvironment__WindowManagers__MetaCity
                                        } else {
                                            Classifier::Topic__DesktopEnvironment__WindowManagers__MetaCity__Themes
                                        }
                                    }
                                }
                            }
                        } else {
                            if i < 614 {
                                if i < 610 {
                                    if i < 608 {
                                        Classifier::Topic__DesktopEnvironment__WindowManagers__Oroborus
                                    } else {
                                        if i < 609 {
                                            Classifier::Topic__DesktopEnvironment__WindowManagers__Oroborus__Themes
                                        } else {
                                            Classifier::Topic__DesktopEnvironment__WindowManagers__Sawfish
                                        }
                                    }
                                } else {
                                    if i < 612 {
                                        if i < 611 {
                                            Classifier::Topic__DesktopEnvironment__WindowManagers__Sawfish__Themes0_30
                                        } else {
                                            Classifier::Topic__DesktopEnvironment__WindowManagers__Sawfish__Themespre0_30
                                        }
                                    } else {
                                        if i < 613 {
                                            Classifier::Topic__DesktopEnvironment__WindowManagers__Waimea
                                        } else {
                                            Classifier::Topic__DesktopEnvironment__WindowManagers__Waimea__Themes
                                        }
                                    }
                                }
                            } else {
                                if i < 617 {
                                    if i < 615 {
                                        Classifier::Topic__DesktopEnvironment__WindowManagers__WindowMaker
                                    } else {
                                        if i < 616 {
                                            Classifier::Topic__DesktopEnvironment__WindowManagers__WindowMaker__Applets
                                        } else {
                                            Classifier::Topic__DesktopEnvironment__WindowManagers__WindowMaker__Themes
                                        }
                                    }
                                } else {
                                    if i < 619 {
                                        if i < 618 {
                                            Classifier::Topic__DesktopEnvironment__WindowManagers__XFCE
                                        } else {
                                            Classifier::Topic__DesktopEnvironment__WindowManagers__XFCE__Themes
                                        }
                                    } else {
                                        if i < 620 {
                                            Classifier::Topic__Documentation
                                        } else {
                                            Classifier::Topic__Documentation__Sphinx
                                        }
                                    }
                                }
                            }
                        }
                    } else {
                        if i < 634 {
                            if i < 627 {
                                if i < 624 {
                                    if i < 622 {
                                        Classifier::Topic__Education
                                    } else {
                                        if i < 623 {
                                            Classifier::Topic__Education__ComputerAidedInstructionCAI
                                        } else {
                                            Classifier::Topic__Education__Testing
                                        }
                                    }
                                } else {
                                    if i < 625 {
                                        Classifier::Topic__FileFormats
                                    } else {
                                        if i < 626 {
                                            Classifier::Topic__FileFormats__JSON
                                        } else {
                                            Classifier::Topic__FileFormats__JSON__JSONSchema
                                        }
                                    }
                                }
                            } else {
                                if i < 630 {
                                    if i < 628 {
                                        Classifier::Topic__GamesEntertainment
                                    } else {
                                        if i < 629 {
                                            Classifier::Topic__GamesEntertainment__Arcade
                                        } else {
                                            Classifier::Topic__GamesEntertainment__BoardGames
                                        }
                                    }
                                } else {
                                    if i < 632 {
                                        if i < 631 {
                                            Classifier::Topic__GamesEntertainment__FirstPersonShooters
                                        } else {
                                            Classifier::Topic__GamesEntertainment__FortuneCookies
                                        }
                                    } else {
                                        if i < 633 {
                                            Classifier::Topic__GamesEntertainment__MultiUserDungeonsMUD
                                        } else {
                                            Classifier::Topic__GamesEntertainment__PuzzleGames
                                        }
                                    }
                                }
                            }
                        } else {
                            if i < 641 {
                                if i < 637 {
                                    if i < 635 {
                                        Classifier::Topic__GamesEntertainment__RealTimeStrategy
                                    } else {
                                        if i < 636 {
                                            Classifier::Topic__GamesEntertainment__RolePlaying
                                        } else {
                                            Classifier::Topic__GamesEntertainment__SideScrollingArcadeGames
                                        }
                                    }
                                } else {
                                    if i < 639 {
                                        if i < 638 {
                                            Classifier::Topic__GamesEntertainment__Simulation
                                        } else {
                                            Classifier::Topic__GamesEntertainment__TurnBasedStrategy
                                        }
                                    } else {
                                        if i < 640 {
                                            Classifier::Topic__HomeAutomation
                                        } else {
                                            Classifier::Topic__Internet
                                        }
                                    }
                                }
                            } else {
                                if i < 644 {
                                    if i < 642 {
                                        Classifier::Topic__Internet__FileTransferProtocolFTP
                                    } else {
                                        if i < 643 {
                                            Classifier::Topic__Internet__Finger
                                        } else {
                                            Classifier::Topic__Internet__LogAnalysis
                                        }
                                    }
                                } else {
                                    if i < 646 {
                                        if i < 645 {
                                            Classifier::Topic__Internet__NameServiceDNS
                                        } else {
                                            Classifier::Topic__Internet__ProxyServers
                                        }
                                    } else {
                                        if i < 647 {
                                            Classifier::Topic__Internet__WAP
                                        } else {
                                            Classifier::Topic__Internet__WWWHTTP
                                        }
                                    }
                                }
                            }
                        }
                    }
                }
            }
        } else {
            if i < 756 {
                if i < 702 {
                    if i < 675 {
                        if i < 661 {
                            if i < 654 {
                                if i < 651 {
                                    if i < 649 {
                                        Classifier::Topic__Internet__WWWHTTP__Browsers
                                    } else {
                                        if i < 650 {
                                            Classifier::Topic__Internet__WWWHTTP__DynamicContent
                                        } else {
                                            Classifier::Topic__Internet__WWWHTTP__DynamicContent__CGIToolsLibraries
                                        }
                                    }
                                } else {
                                    if i < 652 {
                                        Classifier::Topic__Internet__WWWHTTP__DynamicContent__ContentManagementSystem
                                    } else {
                                        if i < 653 {
                                            Classifier::Topic__Internet__WWWHTTP__DynamicContent__MessageBoards
                                        } else {
                                            Classifier::Topic__Internet__WWWHTTP__DynamicContent__NewsDiary
                                        }
                                    }
                                }
                            } else {
                                if i < 657 {
                                    if i < 655 {
                                        Classifier::Topic__Internet__WWWHTTP__DynamicContent__PageCounters
                                    } else {
                                        if i < 656 {
                                            Classifier::Topic__Internet__WWWHTTP__DynamicContent__Wiki
                                        } else {
                                            Classifier::Topic__Internet__WWWHTTP__HTTPServers
                                        }
                                    }
                                } else {
                                    if i < 659 {
                                        if i < 658 {
                                            Classifier::Topic__Internet__WWWHTTP__IndexingSearch
                                        } else {
                                            Classifier::Topic__Internet__WWWHTTP__Session
                                        }
                                    } else {
                                        if i < 660 {
                                            Classifier::Topic__Internet__WWWHTTP__SiteManagement
                                        } else {
                                            Classifier::Topic__Internet__WWWHTTP__SiteManagement__LinkChecking
                                        }
                                    }
                                }
                            }
                        } else {
                            if i < 668 {
                                if i < 664 {
                                    if i < 662 {
                                        Classifier::Topic__Internet__WWWHTTP__WSGI
                                    } else {
                                        if i < 663 {
                                            Classifier::Topic__Internet__WWWHTTP__WSGI__Application
                                        } else {
                                            Classifier::Topic__Internet__WWWHTTP__WSGI__Middleware
                                        }
                                    }
                                } else {
                                    if i < 666 {
                                        if i < 665 {
                                            Classifier::Topic__Internet__WWWHTTP__WSGI__Server
                                        } else {
                                            Classifier::Topic__Internet__XMPP
                                        }
                                    } else {
                                        if i < 667 {
                                            Classifier::Topic__Internet__Z39_50
                                        } else {
                                            Classifier::Topic__Multimedia
                                        }
                                    }
                                }
                            } else {
                                if i < 671 {
                                    if i < 669 {
                                        Classifier::Topic__Multimedia__Graphics
                                    } else {
                                        if i < 670 {
                                            Classifier::Topic__Multimedia__Graphics__3DModeling
                                        } else {
                                            Classifier::Topic__Multimedia__Graphics__3DRendering
                                        }
                                    }
                                } else {
                                    if i < 673 {
                                        if i < 672 {
                                            Classifier::Topic__Multimedia__Graphics__Capture
                                        } else {
                                            Classifier::Topic__Multimedia__Graphics__Capture__DigitalCamera
                                        }
                                    } else {
                                        if i < 674 {
                                            Classifier::Topic__Multimedia__Graphics__Capture__Scanners
                                        } else {
                                            Classifier::Topic__Multimedia__Graphics__Capture__ScreenCapture
                                        }
                                    }
                                }
                            }
                        }
                    } else {
                        if i < 688 {
                            if i < 681 {
                                if i < 678 {
                                    if i < 676 {
                                        Classifier::Topic__Multimedia__Graphics__Editors
                                    } else {
                                        if i < 677 {
                                            Classifier::Topic__Multimedia__Graphics__Editors__RasterBased
                                        } else {
                                            Classifier::Topic__Multimedia__Graphics__Editors__VectorBased
                                        }
                                    }
                                } else {
                                    if i < 679 {
                                        Classifier::Topic__Multimedia__Graphics__GraphicsConversion
                                    } else {
                                        if i < 680 {
                                            Classifier::Topic__Multimedia__Graphics__Presentation
                                        } else {
                                            Classifier::Topic__Multimedia__Graphics__Viewers
                                        }
                                    }
                                }
                            } else {
                                if i < 684 {
                                    if i < 682 {
                                        Classifier::Topic__Multimedia__SoundAudio
                                    } else {
                                        if i < 683 {
                                            Classifier::Topic__Multimedia__SoundAudio__Analysis
                                        } else {
                                            Classifier::Topic__Multimedia__SoundAudio__CDAudio
                                        }
                                    }
                                } else {
                                    if i < 686 {
                                        if i < 685 {
                                            Classifier::Topic__Multimedia__SoundAudio__CDAudio__CDPlaying
                                        } else {
                                            Classifier::Topic__Multimedia__SoundAudio__CDAudio__CDRipping
                                        }
                                    } else {
                                        if i < 687 {
                                            Classifier::Topic__Multimedia__SoundAudio__CDAudio__CDWriting
                                        } else {
                                            Classifier::Topic__Multimedia__SoundAudio__CaptureRecording
                                        }
                                    }
                                }
                            }
                        } else {
                            if i < 695 {
                                if i < 691 {
                                    if i < 689 {
                                        Classifier::Topic__Multimedia__SoundAudio__Conversion
                                    } else {
                                        if i < 690 {
                                            Classifier::Topic__Multimedia__SoundAudio__Editors
                                        } else {
                                            Classifier::Topic__Multimedia__SoundAudio__MIDI
                                        }
                                    }
                                } else {
                                    if i < 693 {
                                        if i < 692 {
                                            Classifier::Topic__Multimedia__SoundAudio__Mixers
                                        } else {
                                            Classifier::Topic__Multimedia__SoundAudio__Players
                                        }
                                    } else {
                                        if i < 694 {
                                            Classifier::Topic__Multimedia__SoundAudio__Players__MP3
                                        } else {
                                            Classifier::Topic__Multimedia__SoundAudio__SoundSynthesis
                                        }
                                    }
                                }
                            } else {
                                if i < 698 {
                                    if i < 696 {
                                        Classifier::Topic__Multimedia__SoundAudio__Speech
                                    } else {
                                        if i < 697 {
                                            Classifier::Topic__Multimedia__Video
                                        } else {
                                            Classifier::Topic__Multimedia__Video__Capture
                                        }
                                    }
                                } else {
                                    if i < 700 {
                                        if i < 699 {
                                            Classifier::Topic__Multimedia__Video__Conversion
                                        } else {
                                            Classifier::Topic__Multimedia__Video__Display
                                        }
                                    } else {
                                        if i < 701 {
                                            Classifier::Topic__Multimedia__Video__NonLinearEditor
                                        } else {
                                            Classifier::Topic__OfficeBusiness
                                        }
                                    }
                                }
                            }
                        }
                    }
                } else {
                    if i < 729 {
                        if i < 715 {
                            if i < 708 {
                                if i < 705 {
                                    if i < 703 {
                                        Classifier::Topic__OfficeBusiness__Financial
                                    } else {
                                        if i < 704 {
                                            Classifier::Topic__OfficeBusiness__Financial__Accounting
                                        } else {
                                            Classifier::Topic__OfficeBusiness__Financial__Investment
                                        }
                                    }
                                } else {
                                    if i < 706 {
                                        Classifier::Topic__OfficeBusiness__Financial__PointOfSale
                                    } else {
                                        if i < 707 {
                                            Classifier::Topic__OfficeBusiness__Financial__Spreadsheet
                                        } else {
                                            Classifier::Topic__OfficeBusiness__Groupware
                                        }
                                    }
                                }
                            } else {
                                if i < 711 {
                                    if i < 709 {
                                        Classifier::Topic__OfficeBusiness__NewsDiary
                                    } else {
                                        if i < 710 {
                                            Classifier::Topic__OfficeBusiness__OfficeSuites
                                        } else {
                                            Classifier::Topic__OfficeBusiness__Scheduling
                                        }
                                    }
                                } else {
                                    if i < 713 {
                                        if i < 712 {
                                            Classifier::Topic__OtherNonlistedTopic
                                        } else {
                                            Classifier::Topic__Printing
                                        }
                                    } else {
                                        if i < 714 {
                                            Classifier::Topic__Religion
                                        } else {
                                            Classifier::Topic__ScientificEngineering
                                        }
                                    }
                                }
                            }
                        } else {
                            if i < 722 {
                                if i < 718 {
                                    if i < 716 {
                                        Classifier::Topic__ScientificEngineering__ArtificialIntelligence
                                    } else {
                                        if i < 717 {
                                            Classifier::Topic__ScientificEngineering__ArtificialLife
                                        } else {
                                            Classifier::Topic__ScientificEngineering__Astronomy
                                        }
                                    }
                                } else {
                                    if i < 720 {
                                        if i < 719 {
                                            Classifier::Topic__ScientificEngineering__AtmosphericScience
                                        } else {
                                            Classifier::Topic__ScientificEngineering__BioInformatics
                                        }
                                    } else {
                                        if i < 721 {
                                            Classifier::Topic__ScientificEngineering__Chemistry
                                        } else {
                                            Classifier::Topic__ScientificEngineering__ElectronicDesignAutomationEDA
                                        }
                                    }
                                }
                            } else {
                                if i < 725 {
                                    if i < 723 {
                                        Classifier::Topic__ScientificEngineering__GIS
                                    } else {
                                        if i < 724 {
                                            Classifier::Topic__ScientificEngineering__HumanMachineInterfaces
                                        } else {
                                            Classifier::Topic__ScientificEngineering__Hydrology
                                        }
                                    }
                                } else {
                                    if i < 727 {
                                        if i < 726 {
                                            Classifier::Topic__ScientificEngineering__ImageProcessing
                                        } else {
                                            Classifier::Topic__ScientificEngineering__ImageRecognition
                                        }
                                    } else {
                                        if i < 728 {
                                            Classifier::Topic__ScientificEngineering__InformationAnalysis
                                        } else {
                                            Classifier::Topic__ScientificEngineering__InterfaceEngineProtocolTranslator
                                        }
                                    }
                                }
                            }
                        }
                    } else {
                        if i < 742 {
                            if i < 735 {
                                if i < 732 {
                                    if i < 730 {
                                        Classifier::Topic__ScientificEngineering__Mathematics
                                    } else {
                                        if i < 731 {
                                            Classifier::Topic__ScientificEngineering__MedicalScienceApps_
                                        } else {
                                            Classifier::Topic__ScientificEngineering__Oceanography
                                        }
                                    }
                                } else {
                                    if i < 733 {
                                        Classifier::Topic__ScientificEngineering__Physics
                                    } else {
                                        if i < 734 {
                                            Classifier::Topic__ScientificEngineering__Visualization
                                        } else {
                                            Classifier::Topic__Security
                                        }
                                    }
                                }
                            } else {
                                if i < 738 {
                                    if i < 736 {
                                        Classifier::Topic__Security__Cryptography
                                    } else {
                                        if i < 737 {
                                            Classifier::Topic__Sociology
                                        } else {
                                            Classifier::Topic__Sociology__Genealogy
                                        }
                                    }
                                } else {
                                    if i < 740 {
                                        if i < 739 {
                                            Classifier::Topic__Sociology__History
                                        } else {
                                            Classifier::Topic__SoftwareDevelopment
                                        }
                                    } else {
                                        if i < 741 {
                                            Classifier::Topic__SoftwareDevelopment__Assemblers
                                        } else {
                                            Classifier::Topic__SoftwareDevelopment__BugTracking
                                        }
                                    }
                                }
                            }
                        } else {
                            if i < 749 {
                                if i < 745 {
                                    if i < 743 {
                                        Classifier::Topic__SoftwareDevelopment__BuildTools
                                    } else {
                                        if i < 744 {
                                            Classifier::Topic__SoftwareDevelopment__CodeGenerators
                                        } else {
                                            Classifier::Topic__SoftwareDevelopment__Compilers
                                        }
                                    }
                                } else {
                                    if i < 747 {
                                        if i < 746 {
                                            Classifier::Topic__SoftwareDevelopment__Debuggers
                                        } else {
                                            Classifier::Topic__SoftwareDevelopment__Disassemblers
                                        }
                                    } else {
                                        if i < 748 {
                                            Classifier::Topic__SoftwareDevelopment__Documentation
                                        } else {
                                            Classifier::Topic__SoftwareDevelopment__EmbeddedSystems
                                        }
                                    }
                                }
                            } else {
                                if i < 752 {
                                    if i < 750 {
                                        Classifier::Topic__SoftwareDevelopment__EmbeddedSystems__ControllerAreaNetworkCAN
                                    } else {
                                        if i < 751 {
                                            Classifier::Topic__SoftwareDevelopment__EmbeddedSystems__ControllerAreaNetworkCAN__CANopen
                                        } else {
                                            Classifier::Topic__SoftwareDevelopment__EmbeddedSystems__ControllerAreaNetworkCAN__J1939
                                        }
                                    }
                                } else {
                                    if i < 754 {
                                        if i < 753 {
                                            Classifier::Topic__SoftwareDevelopment__Internationalization
                                        } else {
                                            Classifier::Topic__SoftwareDevelopment__Interpreters
                                        }
                                    } else {
                                        if i < 755 {
                                            Classifier::Topic__SoftwareDevelopment__Libraries
                                        } else {
                                            Classifier::Topic__SoftwareDevelopment__Libraries__ApplicationFrameworks
                                        }
                                    }
                                }
                            }
                        }
                    }
                }
            } else {
                if i < 810 {
                    if i < 783 {
                        if i < 769 {
                            if i < 762 {
                                if i < 759 {
                                    if i < 757 {
                                        Classifier::Topic__SoftwareDevelopment__Libraries__JavaLibraries
                                    } else {
                                        if i < 758 {
                                            Classifier::Topic__SoftwareDevelopment__Libraries__PHPClasses
                                        } else {
                                            Classifier::Topic__SoftwareDevelopment__Libraries__PerlModules
                                        }
                                    }
                                } else {
                                    if i < 760 {
                                        Classifier::Topic__SoftwareDevelopment__Libraries__PikeModules
                                    } else {
                                        if i < 761 {
                                            Classifier::Topic__SoftwareDevelopment__Libraries__PythonModules
                                        } else {
                                            Classifier::Topic__SoftwareDevelopment__Libraries__RubyModules
                                        }
                                    }
                                }
                            } else {
                                if i < 765 {
                                    if i < 763 {
                                        Classifier::Topic__SoftwareDevelopment__Libraries__TclExtensions
                                    } else {
                                        if i < 764 {
                                            Classifier::Topic__SoftwareDevelopment__Libraries__pygame
                                        } else {
                                            Classifier::Topic__SoftwareDevelopment__Localization
                                        }
                                    }
                                } else {
                                    if i < 767 {
                                        if i < 766 {
                                            Classifier::Topic__SoftwareDevelopment__ObjectBrokering
                                        } else {
                                            Classifier::Topic__SoftwareDevelopment__ObjectBrokering__CORBA
                                        }
                                    } else {
                                        if i < 768 {
                                            Classifier::Topic__SoftwareDevelopment__Preprocessors
                                        } else {
                                            Classifier::Topic__SoftwareDevelopment__QualityAssurance
                                        }
                                    }
                                }
                            }
                        } else {
                            if i < 776 {
                                if i < 772 {
                                    if i < 770 {
                                        Classifier::Topic__SoftwareDevelopment__Testing
                                    } else {
                                        if i < 771 {
                                            Classifier::Topic__SoftwareDevelopment__Testing__Acceptance
                                        } else {
                                            Classifier::Topic__SoftwareDevelopment__Testing__BDD
                                        }
                                    }
                                } else {
                                    if i < 774 {
                                        if i < 773 {
                                            Classifier::Topic__SoftwareDevelopment__Testing__Mocking
                                        } else {
                                            Classifier::Topic__SoftwareDevelopment__Testing__TrafficGeneration
                                        }
                                    } else {
                                        if i < 775 {
                                            Classifier::Topic__SoftwareDevelopment__Testing__Unit
                                        } else {
                                            Classifier::Topic__SoftwareDevelopment__UserInterfaces
                                        }
                                    }
                                }
                            } else {
                                if i < 779 {
                                    if i < 777 {
                                        Classifier::Topic__SoftwareDevelopment__VersionControl
                                    } else {
                                        if i < 778 {
                                            Classifier::Topic__SoftwareDevelopment__VersionControl__Bazaar
                                        } else {
                                            Classifier::Topic__SoftwareDevelopment__VersionControl__CVS
                                        }
                                    }
                                } else {
                                    if i < 781 {
                                        if i < 780 {
                                            Classifier::Topic__SoftwareDevelopment__VersionControl__Git
                                        } else {
                                            Classifier::Topic__SoftwareDevelopment__VersionControl__Mercurial
                                        }
                                    } else {
                                        if i < 782 {
                                            Classifier::Topic__SoftwareDevelopment__VersionControl__RCS
                                        } else {
                                            Classifier::Topic__SoftwareDevelopment__VersionControl__SCCS
                                        }
                                    }
                                }
                            }
                        }
                    } else {
                        if i < 796 {
                            if i < 789 {
                                if i < 786 {
                                    if i < 784 {
                                        Classifier::Topic__SoftwareDevelopment__WidgetSets
                                    } else {
                                        if i < 785 {
                                            Classifier::Topic__System
                                        } else {
                                            Classifier::Topic__System__Archiving
                                        }
                                    }
                                } else {
                                    if i < 787 {
                                        Classifier::Topic__System__Archiving__Backup
                                    } else {
                                        if i < 788 {
                                            Classifier::Topic__System__Archiving__Compression
                                        } else {
                                            Classifier::Topic__System__Archiving__Mirroring
                                        }
                                    }
                                }
                            } else {
                                if i < 792 {
                                    if i < 790 {
                                        Classifier::Topic__System__Archiving__Packaging
                                    } else {
                                        if i < 791 {
                                            Classifier::Topic__System__Benchmark
                                        } else {
                                            Classifier::Topic__System__Boot
                                        }
                                    }
                                } else {
                                    if i < 794 {
                                        if i < 793 {
                                            Classifier::Topic__System__Boot__Init
                                        } else {
                                            Classifier::Topic__System__Clustering
                                        }
                                    } else {
                                        if i < 795 {
                                            Classifier::Topic__System__ConsoleFonts
                                        } else {
                                            Classifier::Topic__System__DistributedComputing
                                        }
                                    }
                                }
                            }
                        } else {
                            if i < 803 {
                                if i < 799 {
                                    if i < 797 {
                                        Classifier::Topic__System__Emulators
                                    } else {
                                        if i < 798 {
                                            Classifier::Topic__System__Filesystems
                                        } else {
                                            Classifier::Topic__System__Hardware
                                        }
                                    }
                                } else {
                                    if i < 801 {
                                        if i < 800 {
                                            Classifier::Topic__System__Hardware__HardwareDrivers
                                        } else {
                                            Classifier::Topic__System__Hardware__Mainframes
                                        }
                                    } else {
                                        if i < 802 {
                                            Classifier::Topic__System__Hardware__SymmetricMultiprocessing
                                        } else {
                                            Classifier::Topic__System__Hardware__UniversalSerialBusUSB
                                        }
                                    }
                                }
                            } else {
                                if i < 806 {
                                    if i < 804 {
                                        Classifier::Topic__System__Hardware__UniversalSerialBusUSB__Audio
                                    } else {
                                        if i < 805 {
                                            Classifier::Topic__System__Hardware__UniversalSerialBusUSB__AudioVideoAV
                                        } else {
                                            Classifier::Topic__System__Hardware__UniversalSerialBusUSB__CommunicationsDeviceClassCDC
                                        }
                                    }
                                } else {
                                    if i < 808 {
                                        if i < 807 {
                                            Classifier::Topic__System__Hardware__UniversalSerialBusUSB__DiagnosticDevice
                                        } else {
                                            Classifier::Topic__System__Hardware__UniversalSerialBusUSB__Hub
                                        }
                                    } else {
                                        if i < 809 {
                                            Classifier::Topic__System__Hardware__UniversalSerialBusUSB__HumanInterfaceDeviceHID
                                        } else {
                                            Classifier::Topic__System__Hardware__UniversalSerialBusUSB__MassStorage
                                        }
                                    }
                                }
                            }
                        }
                    }
                } else {
                    if i < 837 {
                        if i < 823 {
                            if i < 816 {
                                if i < 813 {
                                    if i < 811 {
                                        Classifier::Topic__System__Hardware__UniversalSerialBusUSB__Miscellaneous
                                    } else {
                                        if i < 812 {
                                            Classifier::Topic__System__Hardware__UniversalSerialBusUSB__Printer
                                        } else {
                                            Classifier::Topic__System__Hardware__UniversalSerialBusUSB__SmartCard
                                        }
                                    }
                                } else {
                                    if i < 814 {
                                        Classifier::Topic__System__Hardware__UniversalSerialBusUSB__Vendor
                                    } else {
                                        if i < 815 {
                                            Classifier::Topic__System__Hardware__UniversalSerialBusUSB__VideoUVC
                                        } else {
                                            Classifier::Topic__System__Hardware__UniversalSerialBusUSB__WirelessController
                                        }
                                    }
                                }
                            } else {
                                if i < 819 {
                                    if i < 817 {
                                        Classifier::Topic__System__InstallationSetup
                                    } else {
                                        if i < 818 {
                                            Classifier::Topic__System__Logging
                                        } else {
                                            Classifier::Topic__System__Monitoring
                                        }
                                    }
                                } else {
                                    if i < 821 {
                                        if i < 820 {
                                            Classifier::Topic__System__Networking
                                        } else {
                                            Classifier::Topic__System__Networking__Firewalls
                                        }
                                    } else {
                                        if i < 822 {
                                            Classifier::Topic__System__Networking__Monitoring
                                        } else {
                                            Classifier::Topic__System__Networking__Monitoring__HardwareWatchdog
                                        }
                                    }
                                }
                            }
                        } else {
                            if i < 830 {
                                if i < 826 {
                                    if i < 824 {
                                        Classifier::Topic__System__Networking__TimeSynchronization
                                    } else {
                                        if i < 825 {
                                            Classifier::Topic__System__OperatingSystem
                                        } else {
                                            Classifier::Topic__System__OperatingSystemKernels
                                        }
                                    }
                                } else {
                                    if i < 828 {
                                        if i < 827 {
                                            Classifier::Topic__System__OperatingSystemKernels__BSD
                                        } else {
                                            Classifier::Topic__System__OperatingSystemKernels__GNUHurd
                                        }
                                    } else {
                                        if i < 829 {
                                            Classifier::Topic__System__OperatingSystemKernels__Linux
                                        } else {
                                            Classifier::Topic__System__PowerUPS
                                        }
                                    }
                                }
                            } else {
                                if i < 833 {
                                    if i < 831 {
                                        Classifier::Topic__System__RecoveryTools
                                    } else {
                                        if i < 832 {
                                            Classifier::Topic__System__Shells
                                        } else {
                                            Classifier::Topic__System__SoftwareDistribution
                                        }
                                    }
                                } else {
                                    if i < 835 {
                                        if i < 834 {
                                            Classifier::Topic__System__SystemShells
                                        } else {
                                            Classifier::Topic__System__SystemsAdministration
                                        }
                                    } else {
                                        if i < 836 {
                                            Classifier::Topic__System__SystemsAdministration__AuthenticationDirectory
                                        } else {
                                            Classifier::Topic__System__SystemsAdministration__AuthenticationDirectory__LDAP
                                        }
                                    }
                                }
                            }
                        }
                    } else {
                        if i < 851 {
                            if i < 844 {
                                if i < 840 {
                                    if i < 838 {
                                        Classifier::Topic__System__SystemsAdministration__AuthenticationDirectory__NIS
                                    } else {
                                        if i < 839 {
                                            Classifier::Topic__Terminals
                                        } else {
                                            Classifier::Topic__Terminals__Serial
                                        }
                                    }
                                } else {
                                    if i < 842 {
                                        if i < 841 {
                                            Classifier::Topic__Terminals__Telnet
                                        } else {
                                            Classifier::Topic__Terminals__TerminalEmulatorsXTerminals
                                        }
                                    } else {
                                        if i < 843 {
                                            Classifier::Topic__TextEditors
                                        } else {
                                            Classifier::Topic__TextEditors__Documentation
                                        }
                                    }
                                }
                            } else {
                                if i < 847 {
                                    if i < 845 {
                                        Classifier::Topic__TextEditors__Emacs
                                    } else {
                                        if i < 846 {
                                            Classifier::Topic__TextEditors__IntegratedDevelopmentEnvironmentsIDE
                                        } else {
                                            Classifier::Topic__TextEditors__TextProcessing
                                        }
                                    }
                                } else {
                                    if i < 849 {
                                        if i < 848 {
                                            Classifier::Topic__TextEditors__WordProcessors
                                        } else {
                                            Classifier::Topic__TextProcessing
                                        }
                                    } else {
                                        if i < 850 {
                                            Classifier::Topic__TextProcessing__Filters
                                        } else {
                                            Classifier::Topic__TextProcessing__Fonts
                                        }
                                    }
                                }
                            }
                        } else {
                            if i < 858 {
                                if i < 854 {
                                    if i < 852 {
                                        Classifier::Topic__TextProcessing__General
                                    } else {
                                        if i < 853 {
                                            Classifier::Topic__TextProcessing__Indexing
                                        } else {
                                            Classifier::Topic__TextProcessing__Linguistic
                                        }
                                    }
                                } else {
                                    if i < 856 {
                                        if i < 855 {
                                            Classifier::Topic__TextProcessing__Markup
                                        } else {
                                            Classifier::Topic__TextProcessing__Markup__HTML
                                        }
                                    } else {
                                        if i < 857 {
                                            Classifier::Topic__TextProcessing__Markup__LaTeX
                                        } else {
                                            Classifier::Topic__TextProcessing__Markup__Markdown
                                        }
                                    }
                                }
                            } else {
                                if i < 861 {
                                    if i < 859 {
                                        Classifier::Topic__TextProcessing__Markup__SGML
                                    } else {
                                        if i < 860 {
                                            Classifier::Topic__TextProcessing__Markup__VRML
                                        } else {
                                            Classifier::Topic__TextProcessing__Markup__XML
                                        }
                                    }
                                } else {
                                    if i < 863 {
                                        if i < 862 {
                                            Classifier::Topic__TextProcessing__Markup__reStructuredText
                                        } else {
                                            Classifier::Topic__Utilities
                                        }
                                    } else {
                                        if i < 864 {
                                            Classifier::Typing__StubsOnly
                                        } else {
                                            Classifier::Typing__Typed
                                        }
                                    }
                                }
                            }
                        }
                    }
                }
            }
        }
    }
}

/// Every rank lies within the catalog bounds.
pub proof fn lemma_rank_bounds()
    ensures
        forall|c: Classifier| 0 <= #[trigger] c.rank() < CLASSIFIER_COUNT as int,
{
}

/// `classifier_of_rank` inverts `rank`.
pub proof fn lemma_rank_inverse()
    ensures
        forall|c: Classifier| #[trigger] classifier_of_rank(c.rank()) == c,
{
}

} // verus!
