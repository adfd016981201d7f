use vstd::prelude::*;

use crate::catalog::Classifier;
use crate::lexord::lex_lt;
use crate::lexord::lex_lt_from;
use crate::rank::classifier_of_rank;

verus! {

proof fn lex_adj_140()
    ensures
        lex_lt(Classifier::Framework__Flake8.tag(), Classifier::Framework__Flask.tag()),
{
    reveal_strlit("Framework :: Flake8");
    reveal_strlit("Framework :: Flask");
    reveal_with_fuel(lex_lt_from, 18);
}

proof fn lex_adj_141()
    ensures
        lex_lt(Classifier::Framework__Flask.tag(), Classifier::Framework__Hatch.tag()),
{
    reveal_strlit("Framework :: Flask");
    reveal_strlit("Framework :: Hatch");
    reveal_with_fuel(lex_lt_from, 15);
}

proof fn lex_adj_142()
    ensures
        lex_lt(Classifier::Framework__Hatch.tag(), Classifier::Framework__Hypothesis.tag()),
{
    reveal_strlit("Framework :: Hatch");
    reveal_strlit("Framework :: Hypothesis");
    reveal_with_fuel(lex_lt_from, 16);
}

proof fn lex_adj_143()
    ensures
        lex_lt(Classifier::Framework__Hypothesis.tag(), Classifier::Framework__IDLE.tag()),
{
    reveal_strlit("Framework :: Hypothesis");
    reveal_strlit("Framework :: IDLE");
    reveal_with_fuel(lex_lt_from, 15);
}

proof fn lex_adj_144()
    ensures
        lex_lt(Classifier::Framework__IDLE.tag(), Classifier::Framework__IPython.tag()),
{
    reveal_strlit("Framework :: IDLE");
    reveal_strlit("Framework :: IPython");
    reveal_with_fuel(lex_lt_from, 16);
}

proof fn lex_adj_145()
    ensures
        lex_lt(Classifier::Framework__IPython.tag(), Classifier::Framework__Jupyter.tag()),
{
    reveal_strlit("Framework :: IPython");
    reveal_strlit("Framework :: Jupyter");
    reveal_with_fuel(lex_lt_from, 15);
}

proof fn lex_adj_146()
    ensures
        lex_lt(Classifier::Framework__Jupyter.tag(), Classifier::Framework__Jupyter__JupyterLab.tag()),
{
    reveal_strlit("Framework :: Jupyter");
    reveal_strlit("Framework :: Jupyter :: JupyterLab");
    reveal_with_fuel(lex_lt_from, 22);
}

proof fn lex_adj_147()
    ensures
        lex_lt(Classifier::Framework__Jupyter__JupyterLab.tag(), Classifier::Framework__Jupyter__JupyterLab__1.tag()),
{
    reveal_strlit("Framework :: Jupyter :: JupyterLab");
    reveal_strlit("Framework :: Jupyter :: JupyterLab :: 1");
    reveal_with_fuel(lex_lt_from, 36);
}

proof fn lex_adj_148()
    ensures
        lex_lt(Classifier::Framework__Jupyter__JupyterLab__1.tag(), Classifier::Framework__Jupyter__JupyterLab__2.tag()),
{
    reveal_strlit("Framework :: Jupyter :: JupyterLab :: 1");
    reveal_strlit("Framework :: Jupyter :: JupyterLab :: 2");
    reveal_with_fuel(lex_lt_from, 40);
}

proof fn lex_adj_149()
    ensures
        lex_lt(Classifier::Framework__Jupyter__JupyterLab__2.tag(), Classifier::Framework__Jupyter__JupyterLab__3.tag()),
{
    reveal_strlit("Framework :: Jupyter :: JupyterLab :: 2");
    reveal_strlit("Framework :: Jupyter :: JupyterLab :: 3");
    reveal_with_fuel(lex_lt_from, 40);
}

proof fn lex_adj_150()
    ensures
        lex_lt(Classifier::Framework__Jupyter__JupyterLab__3.tag(), Classifier::Framework__Jupyter__JupyterLab__4.tag()),
{
    reveal_strlit("Framework :: Jupyter :: JupyterLab :: 3");
    reveal_strlit("Framework :: Jupyter :: JupyterLab :: 4");
    reveal_with_fuel(lex_lt_from, 40);
}

proof fn lex_adj_151()
    ensures
        lex_lt(Classifier::Framework__Jupyter__JupyterLab__4.tag(), Classifier::Framework__Jupyter__JupyterLab__Extensions.tag()),
{
    reveal_strlit("Framework :: Jupyter :: JupyterLab :: 4");
    reveal_strlit("Framework :: Jupyter :: JupyterLab :: Extensions");
    reveal_with_fuel(lex_lt_from, 40);
}

proof fn lex_adj_152()
    ensures
        lex_lt(Classifier::Framework__Jupyter__JupyterLab__Extensions.tag(), Classifier::Framework__Jupyter__JupyterLab__Extensions__MimeRenderers.tag()),
{
    reveal_strlit("Framework :: Jupyter :: JupyterLab :: Extensions");
    reveal_strlit("Framework :: Jupyter :: JupyterLab :: Extensions :: Mime Renderers");
    reveal_with_fuel(lex_lt_from, 50);
}

proof fn lex_adj_153()
    ensures
        lex_lt(Classifier::Framework__Jupyter__JupyterLab__Extensions__MimeRenderers.tag(), Classifier::Framework__Jupyter__JupyterLab__Extensions__Prebuilt.tag()),
{
    reveal_strlit("Framework :: Jupyter :: JupyterLab :: Extensions :: Mime Renderers");
    reveal_strlit("Framework :: Jupyter :: JupyterLab :: Extensions :: Prebuilt");
    reveal_with_fuel(lex_lt_from, 54);
}

proof fn lex_adj_154()
    ensures
        lex_lt(Classifier::Framework__Jupyter__JupyterLab__Extensions__Prebuilt.tag(), Classifier::Framework__Jupyter__JupyterLab__Extensions__Themes.tag()),
{
    reveal_strlit("Framework :: Jupyter :: JupyterLab :: Extensions :: Prebuilt");
    reveal_strlit("Framework :: Jupyter :: JupyterLab :: Extensions :: Themes");
    reveal_with_fuel(lex_lt_from, 54);
}

proof fn lex_adj_155()
    ensures
        lex_lt(Classifier::Framework__Jupyter__JupyterLab__Extensions__Themes.tag(), Classifier::Framework__Kedro.tag()),
{
    reveal_strlit("Framework :: Jupyter :: JupyterLab :: Extensions :: Themes");
    reveal_strlit("Framework :: Kedro");
    reveal_with_fuel(lex_lt_from, 15);
}

proof fn lex_adj_156()
    ensures
        lex_lt(Classifier::Framework__Kedro.tag(), Classifier::Framework__Lektor.tag()),
{
    reveal_strlit("Framework :: Kedro");
    reveal_strlit("Framework :: Lektor");
    reveal_with_fuel(lex_lt_from, 15);
}

proof fn lex_adj_157()
    ensures
        lex_lt(Classifier::Framework__Lektor.tag(), Classifier::Framework__Masonite.tag()),
{
    reveal_strlit("Framework :: Lektor");
    reveal_strlit("Framework :: Masonite");
    reveal_with_fuel(lex_lt_from, 15);
}

proof fn lex_adj_158()
    ensures
        lex_lt(Classifier::Framework__Masonite.tag(), Classifier::Framework__Matplotlib.tag()),
{
    reveal_strlit("Framework :: Masonite");
    reveal_strlit("Framework :: Matplotlib");
    reveal_with_fuel(lex_lt_from, 17);
}

proof fn lex_adj_159()
    ensures
        lex_lt(Classifier::Framework__Matplotlib.tag(), Classifier::Framework__MkDocs.tag()),
{
    reveal_strlit("Framework :: Matplotlib");
    reveal_strlit("Framework :: MkDocs");
    reveal_with_fuel(lex_lt_from, 16);
}

proof fn lex_adj_160()
    ensures
        lex_lt(Classifier::Framework__MkDocs.tag(), Classifier::Framework__Nengo.tag()),
{
    reveal_strlit("Framework :: MkDocs");
    reveal_strlit("Framework :: Nengo");
    reveal_with_fuel(lex_lt_from, 15);
}

proof fn lex_adj_161()
    ensures
        lex_lt(Classifier::Framework__Nengo.tag(), Classifier::Framework__Odoo.tag()),
{
    reveal_strlit("Framework :: Nengo");
    reveal_strlit("Framework :: Odoo");
    reveal_with_fuel(lex_lt_from, 15);
}

proof fn lex_adj_162()
    ensures
        lex_lt(Classifier::Framework__Odoo.tag(), Classifier::Framework__Odoo__10_0.tag()),
{
    reveal_strlit("Framework :: Odoo");
    reveal_strlit("Framework :: Odoo :: 10.0");
    reveal_with_fuel(lex_lt_from, 19);
}

proof fn lex_adj_163()
    ensures
        lex_lt(Classifier::Framework__Odoo__10_0.tag(), Classifier::Framework__Odoo__11_0.tag()),
{
    reveal_strlit("Framework :: Odoo :: 10.0");
    reveal_strlit("Framework :: Odoo :: 11.0");
    reveal_with_fuel(lex_lt_from, 24);
}

proof fn lex_adj_164()
    ensures
        lex_lt(Classifier::Framework__Odoo__11_0.tag(), Classifier::Framework__Odoo__12_0.tag()),
{
    reveal_strlit("Framework :: Odoo :: 11.0");
    reveal_strlit("Framework :: Odoo :: 12.0");
    reveal_with_fuel(lex_lt_from, 24);
}

proof fn lex_adj_165()
    ensures
        lex_lt(Classifier::Framework__Odoo__12_0.tag(), Classifier::Framework__Odoo__13_0.tag()),
{
    reveal_strlit("Framework :: Odoo :: 12.0");
    reveal_strlit("Framework :: Odoo :: 13.0");
    reveal_with_fuel(lex_lt_from, 24);
}

proof fn lex_adj_166()
    ensures
        lex_lt(Classifier::Framework__Odoo__13_0.tag(), Classifier::Framework__Odoo__14_0.tag()),
{
    reveal_strlit("Framework :: Odoo :: 13.0");
    reveal_strlit("Framework :: Odoo :: 14.0");
    reveal_with_fuel(lex_lt_from, 24);
}

proof fn lex_adj_167()
    ensures
        lex_lt(Classifier::Framework__Odoo__14_0.tag(), Classifier::Framework__Odoo__15_0.tag()),
{
    reveal_strlit("Framework :: Odoo :: 14.0");
    reveal_strlit("Framework :: Odoo :: 15.0");
    reveal_with_fuel(lex_lt_from, 24);
}

proof fn lex_adj_168()
    ensures
        lex_lt(Classifier::Framework__Odoo__15_0.tag(), Classifier::Framework__Odoo__16_0.tag()),
{
    reveal_strlit("Framework :: Odoo :: 15.0");
    reveal_strlit("Framework :: Odoo :: 16.0");
    reveal_with_fuel(lex_lt_from, 24);
}

proof fn lex_adj_169()
    ensures
        lex_lt(Classifier::Framework__Odoo__16_0.tag(), Classifier::Framework__Odoo__17_0.tag()),
{
    reveal_strlit("Framework :: Odoo :: 16.0");
    reveal_strlit("Framework :: Odoo :: 17.0");
    reveal_with_fuel(lex_lt_from, 24);
}

proof fn lex_adj_170()
    ensures
        lex_lt(Classifier::Framework__Odoo__17_0.tag(), Classifier::Framework__Odoo__18_0.tag()),
{
    reveal_strlit("Framework :: Odoo :: 17.0");
    reveal_strlit("Framework :: Odoo :: 18.0");
    reveal_with_fuel(lex_lt_from, 24);
}

proof fn lex_adj_171()
    ensures
        lex_lt(Classifier::Framework__Odoo__18_0.tag(), Classifier::Framework__Odoo__8_0.tag()),
{
    reveal_strlit("Framework :: Odoo :: 18.0");
    reveal_strlit("Framework :: Odoo :: 8.0");
    reveal_with_fuel(lex_lt_from, 23);
}

proof fn lex_adj_172()
    ensures
        lex_lt(Classifier::Framework__Odoo__8_0.tag(), Classifier::Framework__Odoo__9_0.tag()),
{
    reveal_strlit("Framework :: Odoo :: 8.0");
    reveal_strlit("Framework :: Odoo :: 9.0");
    reveal_with_fuel(lex_lt_from, 23);
}

proof fn lex_adj_173()
    ensures
        lex_lt(Classifier::Framework__Odoo__9_0.tag(), Classifier::Framework__OpenTelemetry.tag()),
{
    reveal_strlit("Framework :: Odoo :: 9.0");
    reveal_strlit("Framework :: OpenTelemetry");
    reveal_with_fuel(lex_lt_from, 16);
}

proof fn lex_adj_174()
    ensures
        lex_lt(Classifier::Framework__OpenTelemetry.tag(), Classifier::Framework__OpenTelemetry__Distros.tag()),
{
    reveal_strlit("Framework :: OpenTelemetry");
    reveal_strlit("Framework :: OpenTelemetry :: Distros");
    reveal_with_fuel(lex_lt_from, 28);
}

proof fn lex_adj_175()
    ensures
        lex_lt(Classifier::Framework__OpenTelemetry__Distros.tag(), Classifier::Framework__OpenTelemetry__Exporters.tag()),
{
    reveal_strlit("Framework :: OpenTelemetry :: Distros");
    reveal_strlit("Framework :: OpenTelemetry :: Exporters");
    reveal_with_fuel(lex_lt_from, 32);
}

proof fn lex_adj_176()
    ensures
        lex_lt(Classifier::Framework__OpenTelemetry__Exporters.tag(), Classifier::Framework__OpenTelemetry__Instrumentations.tag()),
{
    reveal_strlit("Framework :: OpenTelemetry :: Exporters");
    reveal_strlit("Framework :: OpenTelemetry :: Instrumentations");
    reveal_with_fuel(lex_lt_from, 32);
}

proof fn lex_adj_177()
    ensures
        lex_lt(Classifier::Framework__OpenTelemetry__Instrumentations.tag(), Classifier::Framework__Opps.tag()),
{
    reveal_strlit("Framework :: OpenTelemetry :: Instrumentations");
    reveal_strlit("Framework :: Opps");
    reveal_with_fuel(lex_lt_from, 17);
}

proof fn lex_adj_178()
    ensures
        lex_lt(Classifier::Framework__Opps.tag(), Classifier::Framework__Paste.tag()),
{
    reveal_strlit("Framework :: Opps");
    reveal_strlit("Framework :: Paste");
    reveal_with_fuel(lex_lt_from, 15);
}

proof fn lex_adj_179()
    ensures
        lex_lt(Classifier::Framework__Paste.tag(), Classifier::Framework__Pelican.tag()),
{
    reveal_strlit("Framework :: Paste");
    reveal_strlit("Framework :: Pelican");
    reveal_with_fuel(lex_lt_from, 16);
}

proof fn lex_adj_180()
    ensures
        lex_lt(Classifier::Framework__Pelican.tag(), Classifier::Framework__Pelican__Plugins.tag()),
{
    reveal_strlit("Framework :: Pelican");
    reveal_strlit("Framework :: Pelican :: Plugins");
    reveal_with_fuel(lex_lt_from, 22);
}

proof fn lex_adj_181()
    ensures
        lex_lt(Classifier::Framework__Pelican__Plugins.tag(), Classifier::Framework__Pelican__Themes.tag()),
{
    reveal_strlit("Framework :: Pelican :: Plugins");
    reveal_strlit("Framework :: Pelican :: Themes");
    reveal_with_fuel(lex_lt_from, 26);
}

proof fn lex_adj_182()
    ensures
        lex_lt(Classifier::Framework__Pelican__Themes.tag(), Classifier::Framework__Plone.tag()),
{
    reveal_strlit("Framework :: Pelican :: Themes");
    reveal_strlit("Framework :: Plone");
    reveal_with_fuel(lex_lt_from, 16);
}

proof fn lex_adj_183()
    ensures
        lex_lt(Classifier::Framework__Plone.tag(), Classifier::Framework__Plone__3_2.tag()),
{
    reveal_strlit("Framework :: Plone");
    reveal_strlit("Framework :: Plone :: 3.2");
    reveal_with_fuel(lex_lt_from, 20);
}

proof fn lex_adj_184()
    ensures
        lex_lt(Classifier::Framework__Plone__3_2.tag(), Classifier::Framework__Plone__3_3.tag()),
{
    reveal_strlit("Framework :: Plone :: 3.2");
    reveal_strlit("Framework :: Plone :: 3.3");
    reveal_with_fuel(lex_lt_from, 26);
}

proof fn lex_adj_185()
    ensures
        lex_lt(Classifier::Framework__Plone__3_3.tag(), Classifier::Framework__Plone__4_0.tag()),
{
    reveal_strlit("Framework :: Plone :: 3.3");
    reveal_strlit("Framework :: Plone :: 4.0");
    reveal_with_fuel(lex_lt_from, 24);
}

proof fn lex_adj_186()
    ensures
        lex_lt(Classifier::Framework__Plone__4_0.tag(), Classifier::Framework__Plone__4_1.tag()),
{
    reveal_strlit("Framework :: Plone :: 4.0");
    reveal_strlit("Framework :: Plone :: 4.1");
    reveal_with_fuel(lex_lt_from, 26);
}

proof fn lex_adj_187()
    ensures
        lex_lt(Classifier::Framework__Plone__4_1.tag(), Classifier::Framework__Plone__4_2.tag()),
{
    reveal_strlit("Framework :: Plone :: 4.1");
    reveal_strlit("Framework :: Plone :: 4.2");
    reveal_with_fuel(lex_lt_from, 26);
}

proof fn lex_adj_188()
    ensures
        lex_lt(Classifier::Framework__Plone__4_2.tag(), Classifier::Framework__Plone__4_3.tag()),
{
    reveal_strlit("Framework :: Plone :: 4.2");
    reveal_strlit("Framework :: Plone :: 4.3");
    reveal_with_fuel(lex_lt_from, 26);
}

proof fn lex_adj_189()
    ensures
        lex_lt(Classifier::Framework__Plone__4_3.tag(), Classifier::Framework__Plone__5_0.tag()),
{
    reveal_strlit("Framework :: Plone :: 4.3");
    reveal_strlit("Framework :: Plone :: 5.0");
    reveal_with_fuel(lex_lt_from, 24);
}

proof fn lex_adj_190()
    ensures
        lex_lt(Classifier::Framework__Plone__5_0.tag(), Classifier::Framework__Plone__5_1.tag()),
{
    reveal_strlit("Framework :: Plone :: 5.0");
    reveal_strlit("Framework :: Plone :: 5.1");
    reveal_with_fuel(lex_lt_from, 26);
}

proof fn lex_adj_191()
    ensures
        lex_lt(Classifier::Framework__Plone__5_1.tag(), Classifier::Framework__Plone__5_2.tag()),
{
    reveal_strlit("Framework :: Plone :: 5.1");
    reveal_strlit("Framework :: Plone :: 5.2");
    reveal_with_fuel(lex_lt_from, 26);
}

proof fn lex_adj_192()
    ensures
        lex_lt(Classifier::Framework__Plone__5_2.tag(), Classifier::Framework__Plone__5_3.tag()),
{
    reveal_strlit("Framework :: Plone :: 5.2");
    reveal_strlit("Framework :: Plone :: 5.3");
    reveal_with_fuel(lex_lt_from, 26);
}

proof fn lex_adj_193()
    ensures
        lex_lt(Classifier::Framework__Plone__5_3.tag(), Classifier::Framework__Plone__6_0.tag()),
{
    reveal_strlit("Framework :: Plone :: 5.3");
    reveal_strlit("Framework :: Plone :: 6.0");
    reveal_with_fuel(lex_lt_from, 24);
}

proof fn lex_adj_194()
    ensures
        lex_lt(Classifier::Framework__Plone__6_0.tag(), Classifier::Framework__Plone__6_1.tag()),
{
    reveal_strlit("Framework :: Plone :: 6.0");
    reveal_strlit("Framework :: Plone :: 6.1");
    reveal_with_fuel(lex_lt_from, 26);
}

proof fn lex_adj_195()
    ensures
        lex_lt(Classifier::Framework__Plone__6_1.tag(), Classifier::Framework__Plone__Addon.tag()),
{
    reveal_strlit("Framework :: Plone :: 6.1");
    reveal_strlit("Framework :: Plone :: Addon");
    reveal_with_fuel(lex_lt_from, 24);
}

proof fn lex_adj_196()
    ensures
        lex_lt(Classifier::Framework__Plone__Addon.tag(), Classifier::Framework__Plone__Core.tag()),
{
    reveal_strlit("Framework :: Plone :: Addon");
    reveal_strlit("Framework :: Plone :: Core");
    reveal_with_fuel(lex_lt_from, 24);
}

proof fn lex_adj_197()
    ensures
        lex_lt(Classifier::Framework__Plone__Core.tag(), Classifier::Framework__Plone__Distribution.tag()),
{
    reveal_strlit("Framework :: Plone :: Core");
    reveal_strlit("Framework :: Plone :: Distribution");
    reveal_with_fuel(lex_lt_from, 24);
}

proof fn lex_adj_198()
    ensures
        lex_lt(Classifier::Framework__Plone__Distribution.tag(), Classifier::Framework__Plone__Theme.tag()),
{
    reveal_strlit("Framework :: Plone :: Distribution");
    reveal_strlit("Framework :: Plone :: Theme");
    reveal_with_fuel(lex_lt_from, 24);
}

proof fn lex_adj_199()
    ensures
        lex_lt(Classifier::Framework__Plone__Theme.tag(), Classifier::Framework__PySimpleGUI.tag()),
{
    reveal_strlit("Framework :: Plone :: Theme");
    reveal_strlit("Framework :: PySimpleGUI");
    reveal_with_fuel(lex_lt_from, 16);
}

proof fn lex_adj_200()
    ensures
        lex_lt(Classifier::Framework__PySimpleGUI.tag(), Classifier::Framework__PySimpleGUI__4.tag()),
{
    reveal_strlit("Framework :: PySimpleGUI");
    reveal_strlit("Framework :: PySimpleGUI :: 4");
    reveal_with_fuel(lex_lt_from, 26);
}

proof fn lex_adj_201()
    ensures
        lex_lt(Classifier::Framework__PySimpleGUI__4.tag(), Classifier::Framework__PySimpleGUI__5.tag()),
{
    reveal_strlit("Framework :: PySimpleGUI :: 4");
    reveal_strlit("Framework :: PySimpleGUI :: 5");
    reveal_with_fuel(lex_lt_from, 30);
}

proof fn lex_adj_202()
    ensures
        lex_lt(Classifier::Framework__PySimpleGUI__5.tag(), Classifier::Framework__Pycsou.tag()),
{
    reveal_strlit("Framework :: PySimpleGUI :: 5");
    reveal_strlit("Framework :: Pycsou");
    reveal_with_fuel(lex_lt_from, 17);
}

proof fn lex_adj_203()
    ensures
        lex_lt(Classifier::Framework__Pycsou.tag(), Classifier::Framework__Pydantic.tag()),
{
    reveal_strlit("Framework :: Pycsou");
    reveal_strlit("Framework :: Pydantic");
    reveal_with_fuel(lex_lt_from, 17);
}

proof fn lex_adj_204()
    ensures
        lex_lt(Classifier::Framework__Pydantic.tag(), Classifier::Framework__Pydantic__1.tag()),
{
    reveal_strlit("Framework :: Pydantic");
    reveal_strlit("Framework :: Pydantic :: 1");
    reveal_with_fuel(lex_lt_from, 23);
}

proof fn lex_adj_205()
    ensures
        lex_lt(Classifier::Framework__Pydantic__1.tag(), Classifier::Framework__Pydantic__2.tag()),
{
    reveal_strlit("Framework :: Pydantic :: 1");
    reveal_strlit("Framework :: Pydantic :: 2");
    reveal_with_fuel(lex_lt_from, 27);
}

proof fn lex_adj_206()
    ensures
        lex_lt(Classifier::Framework__Pydantic__2.tag(), Classifier::Framework__Pylons.tag()),
{
    reveal_strlit("Framework :: Pydantic :: 2");
    reveal_strlit("Framework :: Pylons");
    reveal_with_fuel(lex_lt_from, 17);
}

proof fn lex_adj_207()
    ensures
        lex_lt(Classifier::Framework__Pylons.tag(), Classifier::Framework__Pyramid.tag()),
{
    reveal_strlit("Framework :: Pylons");
    reveal_strlit("Framework :: Pyramid");
    reveal_with_fuel(lex_lt_from, 17);
}

proof fn lex_adj_208()
    ensures
        lex_lt(Classifier::Framework__Pyramid.tag(), Classifier::Framework__Pytest.tag()),
{
    reveal_strlit("Framework :: Pyramid");
    reveal_strlit("Framework :: Pytest");
    reveal_with_fuel(lex_lt_from, 17);
}

proof fn lex_adj_209()
    ensures
        lex_lt(Classifier::Framework__Pytest.tag(), Classifier::Framework__ReviewBoard.tag()),
{
    reveal_strlit("Framework :: Pytest");
    reveal_strlit("Framework :: Review Board");
    reveal_with_fuel(lex_lt_from, 15);
}

proof fn lex_adj_210()
    ensures
        lex_lt(Classifier::Framework__ReviewBoard.tag(), Classifier::Framework__RobotFramework.tag()),
{
    reveal_strlit("Framework :: Review Board");
    reveal_strlit("Framework :: Robot Framework");
    reveal_with_fuel(lex_lt_from, 16);
}

proof fn lex_adj_211()
    ensures
        lex_lt(Classifier::Framework__RobotFramework.tag(), Classifier::Framework__RobotFramework__Library.tag()),
{
    reveal_strlit("Framework :: Robot Framework");
    reveal_strlit("Framework :: Robot Framework :: Library");
    reveal_with_fuel(lex_lt_from, 30);
}

proof fn lex_adj_212()
    ensures
        lex_lt(Classifier::Framework__RobotFramework__Library.tag(), Classifier::Framework__RobotFramework__Tool.tag()),
{
    reveal_strlit("Framework :: Robot Framework :: Library");
    reveal_strlit("Framework :: Robot Framework :: Tool");
    reveal_with_fuel(lex_lt_from, 34);
}

proof fn lex_adj_213()
    ensures
        lex_lt(Classifier::Framework__RobotFramework__Tool.tag(), Classifier::Framework__Scrapy.tag()),
{
    reveal_strlit("Framework :: Robot Framework :: Tool");
    reveal_strlit("Framework :: Scrapy");
    reveal_with_fuel(lex_lt_from, 15);
}

proof fn lex_adj_214()
    ensures
        lex_lt(Classifier::Framework__Scrapy.tag(), Classifier::Framework__SetuptoolsPlugin.tag()),
{
    reveal_strlit("Framework :: Scrapy");
    reveal_strlit("Framework :: Setuptools Plugin");
    reveal_with_fuel(lex_lt_from, 16);
}

proof fn lex_adj_215()
    ensures
        lex_lt(Classifier::Framework__SetuptoolsPlugin.tag(), Classifier::Framework__Sphinx.tag()),
{
    reveal_strlit("Framework :: Setuptools Plugin");
    reveal_strlit("Framework :: Sphinx");
    reveal_with_fuel(lex_lt_from, 16);
}

proof fn lex_adj_216()
    ensures
        lex_lt(Classifier::Framework__Sphinx.tag(), Classifier::Framework__Sphinx__Domain.tag()),
{
    reveal_strlit("Framework :: Sphinx");
    reveal_strlit("Framework :: Sphinx :: Domain");
    reveal_with_fuel(lex_lt_from, 21);
}

proof fn lex_adj_217()
    ensures
        lex_lt(Classifier::Framework__Sphinx__Domain.tag(), Classifier::Framework__Sphinx__Extension.tag()),
{
    reveal_strlit("Framework :: Sphinx :: Domain");
    reveal_strlit("Framework :: Sphinx :: Extension");
    reveal_with_fuel(lex_lt_from, 25);
}

proof fn lex_adj_218()
    ensures
        lex_lt(Classifier::Framework__Sphinx__Extension.tag(), Classifier::Framework__Sphinx__Theme.tag()),
{
    reveal_strlit("Framework :: Sphinx :: Extension");
    reveal_strlit("Framework :: Sphinx :: Theme");
    reveal_with_fuel(lex_lt_from, 25);
}

proof fn lex_adj_219()
    ensures
        lex_lt(Classifier::Framework__Sphinx__Theme.tag(), Classifier::Framework__Trac.tag()),
{
    reveal_strlit("Framework :: Sphinx :: Theme");
    reveal_strlit("Framework :: Trac");
    reveal_with_fuel(lex_lt_from, 15);
}

proof fn lex_adj_220()
    ensures
        lex_lt(Classifier::Framework__Trac.tag(), Classifier::Framework__Trio.tag()),
{
    reveal_strlit("Framework :: Trac");
    reveal_strlit("Framework :: Trio");
    reveal_with_fuel(lex_lt_from, 17);
}

proof fn lex_adj_221()
    ensures
        lex_lt(Classifier::Framework__Trio.tag(), Classifier::Framework__Tryton.tag()),
{
    reveal_strlit("Framework :: Trio");
    reveal_strlit("Framework :: Tryton");
    reveal_with_fuel(lex_lt_from, 17);
}

proof fn lex_adj_222()
    ensures
        lex_lt(Classifier::Framework__Tryton.tag(), Classifier::Framework__TurboGears.tag()),
{
    reveal_strlit("Framework :: Tryton");
    reveal_strlit("Framework :: TurboGears");
    reveal_with_fuel(lex_lt_from, 16);
}

proof fn lex_adj_223()
    ensures
        lex_lt(Classifier::Framework__TurboGears.tag(), Classifier::Framework__TurboGears__Applications.tag()),
{
    reveal_strlit("Framework :: TurboGears");
    reveal_strlit("Framework :: TurboGears :: Applications");
    reveal_with_fuel(lex_lt_from, 25);
}

proof fn lex_adj_224()
    ensures
        lex_lt(Classifier::Framework__TurboGears__Applications.tag(), Classifier::Framework__TurboGears__Widgets.tag()),
{
    reveal_strlit("Framework :: TurboGears :: Applications");
    reveal_strlit("Framework :: TurboGears :: Widgets");
    reveal_with_fuel(lex_lt_from, 29);
}

proof fn lex_adj_225()
    ensures
        lex_lt(Classifier::Framework__TurboGears__Widgets.tag(), Classifier::Framework__Twisted.tag()),
{
    reveal_strlit("Framework :: TurboGears :: Widgets");
    reveal_strlit("Framework :: Twisted");
    reveal_with_fuel(lex_lt_from, 16);
}

proof fn lex_adj_226()
    ensures
        lex_lt(Classifier::Framework__Twisted.tag(), Classifier::Framework__Wagtail.tag()),
{
    reveal_strlit("Framework :: Twisted");
    reveal_strlit("Framework :: Wagtail");
    reveal_with_fuel(lex_lt_from, 15);
}

proof fn lex_adj_227()
    ensures
        lex_lt(Classifier::Framework__Wagtail.tag(), Classifier::Framework__Wagtail__1.tag()),
{
    reveal_strlit("Framework :: Wagtail");
    reveal_strlit("Framework :: Wagtail :: 1");
    reveal_with_fuel(lex_lt_from, 22);
}

proof fn lex_adj_228()
    ensures
        lex_lt(Classifier::Framework__Wagtail__1.tag(), Classifier::Framework__Wagtail__2.tag()),
{
    reveal_strlit("Framework :: Wagtail :: 1");
    reveal_strlit("Framework :: Wagtail :: 2");
    reveal_with_fuel(lex_lt_from, 26);
}

proof fn lex_adj_229()
    ensures
        lex_lt(Classifier::Framework__Wagtail__2.tag(), Classifier::Framework__Wagtail__3.tag()),
{
    reveal_strlit("Framework :: Wagtail :: 2");
    reveal_strlit("Framework :: Wagtail :: 3");
    reveal_with_fuel(lex_lt_from, 26);
}

proof fn lex_adj_230()
    ensures
        lex_lt(Classifier::Framework__Wagtail__3.tag(), Classifier::Framework__Wagtail__4.tag()),
{
    reveal_strlit("Framework :: Wagtail :: 3");
    reveal_strlit("Framework :: Wagtail :: 4");
    reveal_with_fuel(lex_lt_from, 26);
}

proof fn lex_adj_231()
    ensures
        lex_lt(Classifier::Framework__Wagtail__4.tag(), Classifier::Framework__Wagtail__5.tag()),
{
    reveal_strlit("Framework :: Wagtail :: 4");
    reveal_strlit("Framework :: Wagtail :: 5");
    reveal_with_fuel(lex_lt_from, 26);
}

proof fn lex_adj_232()
    ensures
        lex_lt(Classifier::Framework__Wagtail__5.tag(), Classifier::Framework__Wagtail__6.tag()),
{
    reveal_strlit("Framework :: Wagtail :: 5");
    reveal_strlit("Framework :: Wagtail :: 6");
    reveal_with_fuel(lex_lt_from, 26);
}

proof fn lex_adj_233()
    ensures
        lex_lt(Classifier::Framework__Wagtail__6.tag(), Classifier::Framework__ZODB.tag()),
{
    reveal_strlit("Framework :: Wagtail :: 6");
    reveal_strlit("Framework :: ZODB");
    reveal_with_fuel(lex_lt_from, 15);
}

proof fn lex_adj_234()
    ensures
        lex_lt(Classifier::Framework__ZODB.tag(), Classifier::Framework__Zope.tag()),
{
    reveal_strlit("Framework :: ZODB");
    reveal_strlit("Framework :: Zope");
    reveal_with_fuel(lex_lt_from, 16);
}

proof fn lex_adj_235()
    ensures
        lex_lt(Classifier::Framework__Zope.tag(), Classifier::Framework__Zope__2.tag()),
{
    reveal_strlit("Framework :: Zope");
    reveal_strlit("Framework :: Zope :: 2");
    reveal_with_fuel(lex_lt_from, 19);
}

proof fn lex_adj_236()
    ensures
        lex_lt(Classifier::Framework__Zope__2.tag(), Classifier::Framework__Zope__3.tag()),
{
    reveal_strlit("Framework :: Zope :: 2");
    reveal_strlit("Framework :: Zope :: 3");
    reveal_with_fuel(lex_lt_from, 23);
}

proof fn lex_adj_237()
    ensures
        lex_lt(Classifier::Framework__Zope__3.tag(), Classifier::Framework__Zope__4.tag()),
{
    reveal_strlit("Framework :: Zope :: 3");
    reveal_strlit("Framework :: Zope :: 4");
    reveal_with_fuel(lex_lt_from, 23);
}

proof fn lex_adj_238()
    ensures
        lex_lt(Classifier::Framework__Zope__4.tag(), Classifier::Framework__Zope__5.tag()),
{
    reveal_strlit("Framework :: Zope :: 4");
    reveal_strlit("Framework :: Zope :: 5");
    reveal_with_fuel(lex_lt_from, 23);
}

proof fn lex_adj_239()
    ensures
        lex_lt(Classifier::Framework__Zope__5.tag(), Classifier::Framework__Zope2.tag()),
{
    reveal_strlit("Framework :: Zope :: 5");
    reveal_strlit("Framework :: Zope2");
    reveal_with_fuel(lex_lt_from, 19);
}

proof fn lex_adj_240()
    ensures
        lex_lt(Classifier::Framework__Zope2.tag(), Classifier::Framework__Zope3.tag()),
{
    reveal_strlit("Framework :: Zope2");
    reveal_strlit("Framework :: Zope3");
    reveal_with_fuel(lex_lt_from, 19);
}

proof fn lex_adj_241()
    ensures
        lex_lt(Classifier::Framework__Zope3.tag(), Classifier::Framework__aiohttp.tag()),
{
    reveal_strlit("Framework :: Zope3");
    reveal_strlit("Framework :: aiohttp");
    reveal_with_fuel(lex_lt_from, 15);
}

proof fn lex_adj_242()
    ensures
        lex_lt(Classifier::Framework__aiohttp.tag(), Classifier::Framework__cocotb.tag()),
{
    reveal_strlit("Framework :: aiohttp");
    reveal_strlit("Framework :: cocotb");
    reveal_with_fuel(lex_lt_from, 15);
}

proof fn lex_adj_243()
    ensures
        lex_lt(Classifier::Framework__cocotb.tag(), Classifier::Framework__napari.tag()),
{
    reveal_strlit("Framework :: cocotb");
    reveal_strlit("Framework :: napari");
    reveal_with_fuel(lex_lt_from, 15);
}

proof fn lex_adj_244()
    ensures
        lex_lt(Classifier::Framework__napari.tag(), Classifier::Framework__tox.tag()),
{
    reveal_strlit("Framework :: napari");
    reveal_strlit("Framework :: tox");
    reveal_with_fuel(lex_lt_from, 15);
}

proof fn lex_adj_245()
    ensures
        lex_lt(Classifier::Framework__tox.tag(), Classifier::IntendedAudience__CustomerService.tag()),
{
    reveal_strlit("Framework :: tox");
    reveal_strlit("Intended Audience :: Customer Service");
    reveal_with_fuel(lex_lt_from, 2);
}

proof fn lex_adj_246()
    ensures
        lex_lt(Classifier::IntendedAudience__CustomerService.tag(), Classifier::IntendedAudience__Developers.tag()),
{
    reveal_strlit("Intended Audience :: Customer Service");
    reveal_strlit("Intended Audience :: Developers");
    reveal_with_fuel(lex_lt_from, 23);
}

proof fn lex_adj_247()
    ensures
        lex_lt(Classifier::IntendedAudience__Developers.tag(), Classifier::IntendedAudience__Education.tag()),
{
    reveal_strlit("Intended Audience :: Developers");
    reveal_strlit("Intended Audience :: Education");
    reveal_with_fuel(lex_lt_from, 23);
}

proof fn lex_adj_248()
    ensures
        lex_lt(Classifier::IntendedAudience__Education.tag(), Classifier::IntendedAudience__EndUsersDesktop.tag()),
{
    reveal_strlit("Intended Audience :: Education");
    reveal_strlit("Intended Audience :: End Users/Desktop");
    reveal_with_fuel(lex_lt_from, 24);
}

proof fn lex_adj_249()
    ensures
        lex_lt(Classifier::IntendedAudience__EndUsersDesktop.tag(), Classifier::IntendedAudience__FinancialandInsuranceIndustry.tag()),
{
    reveal_strlit("Intended Audience :: End Users/Desktop");
    reveal_strlit("Intended Audience :: Financial and Insurance Industry");
    reveal_with_fuel(lex_lt_from, 23);
}

proof fn lex_adj_250()
    ensures
        lex_lt(Classifier::IntendedAudience__FinancialandInsuranceIndustry.tag(), Classifier::IntendedAudience__HealthcareIndustry.tag()),
{
    reveal_strlit("Intended Audience :: Financial and Insurance Industry");
    reveal_strlit("Intended Audience :: Healthcare Industry");
    reveal_with_fuel(lex_lt_from, 23);
}

proof fn lex_adj_251()
    ensures
        lex_lt(Classifier::IntendedAudience__HealthcareIndustry.tag(), Classifier::IntendedAudience__InformationTechnology.tag()),
{
    reveal_strlit("Intended Audience :: Healthcare Industry");
    reveal_strlit("Intended Audience :: Information Technology");
    reveal_with_fuel(lex_lt_from, 23);
}

proof fn lex_adj_252()
    ensures
        lex_lt(Classifier::IntendedAudience__InformationTechnology.tag(), Classifier::IntendedAudience__LegalIndustry.tag()),
{
    reveal_strlit("Intended Audience :: Information Technology");
    reveal_strlit("Intended Audience :: Legal Industry");
    reveal_with_fuel(lex_lt_from, 23);
}

proof fn lex_adj_253()
    ensures
        lex_lt(Classifier::IntendedAudience__LegalIndustry.tag(), Classifier::IntendedAudience__Manufacturing.tag()),
{
    reveal_strlit("Intended Audience :: Legal Industry");
    reveal_strlit("Intended Audience :: Manufacturing");
    reveal_with_fuel(lex_lt_from, 23);
}

proof fn lex_adj_254()
    ensures
        lex_lt(Classifier::IntendedAudience__Manufacturing.tag(), Classifier::IntendedAudience__OtherAudience.tag()),
{
    reveal_strlit("Intended Audience :: Manufacturing");
    reveal_strlit("Intended Audience :: Other Audience");
    reveal_with_fuel(lex_lt_from, 23);
}

proof fn lex_adj_255()
    ensures
        lex_lt(Classifier::IntendedAudience__OtherAudience.tag(), Classifier::IntendedAudience__Religion.tag()),
{
    reveal_strlit("Intended Audience :: Other Audience");
    reveal_strlit("Intended Audience :: Religion");
    reveal_with_fuel(lex_lt_from, 23);
}

proof fn lex_adj_256()
    ensures
        lex_lt(Classifier::IntendedAudience__Religion.tag(), Classifier::IntendedAudience__ScienceResearch.tag()),
{
    reveal_strlit("Intended Audience :: Religion");
    reveal_strlit("Intended Audience :: Science/Research");
    reveal_with_fuel(lex_lt_from, 23);
}

proof fn lex_adj_257()
    ensures
        lex_lt(Classifier::IntendedAudience__ScienceResearch.tag(), Classifier::IntendedAudience__SystemAdministrators.tag()),
{
    reveal_strlit("Intended Audience :: Science/Research");
    reveal_strlit("Intended Audience :: System Administrators");
    reveal_with_fuel(lex_lt_from, 24);
}

proof fn lex_adj_258()
    ensures
        lex_lt(Classifier::IntendedAudience__SystemAdministrators.tag(), Classifier::IntendedAudience__TelecommunicationsIndustry.tag()),
{
    reveal_strlit("Intended Audience :: System Administrators");
    reveal_strlit("Intended Audience :: Telecommunications Industry");
    reveal_with_fuel(lex_lt_from, 23);
}

proof fn lex_adj_259()
    ensures
        lex_lt(Classifier::IntendedAudience__TelecommunicationsIndustry.tag(), Classifier::License__AladdinFreePublicLicenseAFPL.tag()),
{
    reveal_strlit("Intended Audience :: Telecommunications Industry");
    reveal_strlit("License :: Aladdin Free Public License (AFPL)");
    reveal_with_fuel(lex_lt_from, 2);
}

proof fn lex_adj_260()
    ensures
        lex_lt(Classifier::License__AladdinFreePublicLicenseAFPL.tag(), Classifier::License__CC01_0UniversalCC01_0PublicDomainDedication.tag()),
{
    reveal_strlit("License :: Aladdin Free Public License (AFPL)");
    reveal_strlit("License :: CC0 1.0 Universal (CC0 1.0) Public Domain Dedication");
    reveal_with_fuel(lex_lt_from, 13);
}

proof fn lex_adj_261()
    ensures
        lex_lt(Classifier::License__CC01_0UniversalCC01_0PublicDomainDedication.tag(), Classifier::License__CeCILLBFreeSoftwareLicenseAgreementCECILLB.tag()),
{
    reveal_strlit("License :: CC0 1.0 Universal (CC0 1.0) Public Domain Dedication");
    reveal_strlit("License :: CeCILL-B Free Software License Agreement (CECILL-B)");
    reveal_with_fuel(lex_lt_from, 14);
}

proof fn lex_adj_262()
    ensures
        lex_lt(Classifier::License__CeCILLBFreeSoftwareLicenseAgreementCECILLB.tag(), Classifier::License__CeCILLCFreeSoftwareLicenseAgreementCECILLC.tag()),
{
    reveal_strlit("License :: CeCILL-B Free Software License Agreement (CECILL-B)");
    reveal_strlit("License :: CeCILL-C Free Software License Agreement (CECILL-C)");
    reveal_with_fuel(lex_lt_from, 20);
}

proof fn lex_adj_263()
    ensures
        lex_lt(Classifier::License__CeCILLCFreeSoftwareLicenseAgreementCECILLC.tag(), Classifier::License__DFSGapproved.tag()),
{
    reveal_strlit("License :: CeCILL-C Free Software License Agreement (CECILL-C)");
    reveal_strlit("License :: DFSG approved");
    reveal_with_fuel(lex_lt_from, 13);
}

proof fn lex_adj_264()
    ensures
        lex_lt(Classifier::License__DFSGapproved.tag(), Classifier::License__EiffelForumLicenseEFL.tag()),
{
    reveal_strlit("License :: DFSG approved");
    reveal_strlit("License :: Eiffel Forum License (EFL)");
    reveal_with_fuel(lex_lt_from, 13);
}

proof fn lex_adj_265()
    ensures
        lex_lt(Classifier::License__EiffelForumLicenseEFL.tag(), Classifier::License__FreeForEducationalUse.tag()),
{
    reveal_strlit("License :: Eiffel Forum License (EFL)");
    reveal_strlit("License :: Free For Educational Use");
    reveal_with_fuel(lex_lt_from, 13);
}

proof fn lex_adj_266()
    ensures
        lex_lt(Classifier::License__FreeForEducationalUse.tag(), Classifier::License__FreeForHomeUse.tag()),
{
    reveal_strlit("License :: Free For Educational Use");
    reveal_strlit("License :: Free For Home Use");
    reveal_with_fuel(lex_lt_from, 22);
}

proof fn lex_adj_267()
    ensures
        lex_lt(Classifier::License__FreeForHomeUse.tag(), Classifier::License__FreeToUseButRestricted.tag()),
{
    reveal_strlit("License :: Free For Home Use");
    reveal_strlit("License :: Free To Use But Restricted");
    reveal_with_fuel(lex_lt_from, 18);
}

proof fn lex_adj_268()
    ensures
        lex_lt(Classifier::License__FreeToUseButRestricted.tag(), Classifier::License__Freefornoncommercialuse.tag()),
{
    reveal_strlit("License :: Free To Use But Restricted");
    reveal_strlit("License :: Free for non-commercial use");
    reveal_with_fuel(lex_lt_from, 18);
}

proof fn lex_adj_269()
    ensures
        lex_lt(Classifier::License__Freefornoncommercialuse.tag(), Classifier::License__FreelyDistributable.tag()),
{
    reveal_strlit("License :: Free for non-commercial use");
    reveal_strlit("License :: Freely Distributable");
    reveal_with_fuel(lex_lt_from, 17);
}

proof fn lex_adj_270()
    ensures
        lex_lt(Classifier::License__FreelyDistributable.tag(), Classifier::License__Freeware.tag()),
{
    reveal_strlit("License :: Freely Distributable");
    reveal_strlit("License :: Freeware");
    reveal_with_fuel(lex_lt_from, 17);
}

proof fn lex_adj_271()
    ensures
        lex_lt(Classifier::License__Freeware.tag(), Classifier::License__GUSTFontLicense1_0.tag()),
{
    reveal_strlit("License :: Freeware");
    reveal_strlit("License :: GUST Font License 1.0");
    reveal_with_fuel(lex_lt_from, 13);
}

proof fn lex_adj_272()
    ensures
        lex_lt(Classifier::License__GUSTFontLicense1_0.tag(), Classifier::License__GUSTFontLicense20060930.tag()),
{
    reveal_strlit("License :: GUST Font License 1.0");
    reveal_strlit("License :: GUST Font License 2006-09-30");
    reveal_with_fuel(lex_lt_from, 31);
}

proof fn lex_adj_273()
    ensures
        lex_lt(Classifier::License__GUSTFontLicense20060930.tag(), Classifier::License__NetscapePublicLicenseNPL.tag()),
{
    reveal_strlit("License :: GUST Font License 2006-09-30");
    reveal_strlit("License :: Netscape Public License (NPL)");
    reveal_with_fuel(lex_lt_from, 13);
}

proof fn lex_adj_274()
    ensures
        lex_lt(Classifier::License__NetscapePublicLicenseNPL.tag(), Classifier::License__NokiaOpenSourceLicenseNOKOS.tag()),
{
    reveal_strlit("License :: Netscape Public License (NPL)");
    reveal_strlit("License :: Nokia Open Source License (NOKOS)");
    reveal_with_fuel(lex_lt_from, 14);
}

proof fn lex_adj_275()
    ensures
        lex_lt(Classifier::License__NokiaOpenSourceLicenseNOKOS.tag(), Classifier::License__OSIApproved.tag()),
{
    reveal_strlit("License :: Nokia Open Source License (NOKOS)");
    reveal_strlit("License :: OSI Approved");
    reveal_with_fuel(lex_lt_from, 13);
}

proof fn lex_adj_276()
    ensures
        lex_lt(Classifier::License__OSIApproved.tag(), Classifier::License__OSIApproved__AcademicFreeLicenseAFL.tag()),
{
    reveal_strlit("License :: OSI Approved");
    reveal_strlit("License :: OSI Approved :: Academic Free License (AFL)");
    reveal_with_fuel(lex_lt_from, 25);
}

proof fn lex_adj_277()
    ensures
        lex_lt(Classifier::License__OSIApproved__AcademicFreeLicenseAFL.tag(), Classifier::License__OSIApproved__ApacheSoftwareLicense.tag()),
{
    reveal_strlit("License :: OSI Approved :: Academic Free License (AFL)");
    reveal_strlit("License :: OSI Approved :: Apache Software License");
    reveal_with_fuel(lex_lt_from, 30);
}

proof fn lex_adj_278()
    ensures
        lex_lt(Classifier::License__OSIApproved__ApacheSoftwareLicense.tag(), Classifier::License__OSIApproved__ApplePublicSourceLicense.tag()),
{
    reveal_strlit("License :: OSI Approved :: Apache Software License");
    reveal_strlit("License :: OSI Approved :: Apple Public Source License");
    reveal_with_fuel(lex_lt_from, 31);
}

proof fn lex_adj_279()
    ensures
        lex_lt(Classifier::License__OSIApproved__ApplePublicSourceLicense.tag(), Classifier::License__OSIApproved__ArtisticLicense.tag()),
{
    reveal_strlit("License :: OSI Approved :: Apple Public Source License");
    reveal_strlit("License :: OSI Approved :: Artistic License");
    reveal_with_fuel(lex_lt_from, 30);
}

/// Adjacent tags within this stretch of the lexicographic order.
pub(crate) proof fn lemma_adjacent_lex_b(i: int)
    requires
        140 <= i < 280,
    ensures
        lex_lt(classifier_of_rank(i).tag(), classifier_of_rank(i + 1).tag()),
{
    if i == 140 {
        lex_adj_140();
    }
    if i == 141 {
        lex_adj_141();
    }
    if i == 142 {
        lex_adj_142();
    }
    if i == 143 {
        lex_adj_143();
    }
    if i == 144 {
        lex_adj_144();
    }
    if i == 145 {
        lex_adj_145();
    }
    if i == 146 {
        lex_adj_146();
    }
    if i == 147 {
        lex_adj_147();
    }
    if i == 148 {
        lex_adj_148();
    }
    if i == 149 {
        lex_adj_149();
    }
    if i == 150 {
        lex_adj_150();
    }
    if i == 151 {
        lex_adj_151();
    }
    if i == 152 {
        lex_adj_152();
    }
    if i == 153 {
        lex_adj_153();
    }
    if i == 154 {
        lex_adj_154();
    }
    if i == 155 {
        lex_adj_155();
    }
    if i == 156 {
        lex_adj_156();
    }
    if i == 157 {
        lex_adj_157();
    }
    if i == 158 {
        lex_adj_158();
    }
    if i == 159 {
        lex_adj_159();
    }
    if i == 160 {
        lex_adj_160();
    }
    if i == 161 {
        lex_adj_161();
    }
    if i == 162 {
        lex_adj_162();
    }
    if i == 163 {
        lex_adj_163();
    }
    if i == 164 {
        lex_adj_164();
    }
    if i == 165 {
        lex_adj_165();
    }
    if i == 166 {
        lex_adj_166();
    }
    if i == 167 {
        lex_adj_167();
    }
    if i == 168 {
        lex_adj_168();
    }
    if i == 169 {
        lex_adj_169();
    }
    if i == 170 {
        lex_adj_170();
    }
    if i == 171 {
        lex_adj_171();
    }
    if i == 172 {
        lex_adj_172();
    }
    if i == 173 {
        lex_adj_173();
    }
    if i == 174 {
        lex_adj_174();
    }
    if i == 175 {
        lex_adj_175();
    }
    if i == 176 {
        lex_adj_176();
    }
    if i == 177 {
        lex_adj_177();
    }
    if i == 178 {
        lex_adj_178();
    }
    if i == 179 {
        lex_adj_179();
    }
    if i == 180 {
        lex_adj_180();
    }
    if i == 181 {
        lex_adj_181();
    }
    if i == 182 {
        lex_adj_182();
    }
    if i == 183 {
        lex_adj_183();
    }
    if i == 184 {
        lex_adj_184();
    }
    if i == 185 {
        lex_adj_185();
    }
    if i == 186 {
        lex_adj_186();
    }
    if i == 187 {
        lex_adj_187();
    }
    if i == 188 {
        lex_adj_188();
    }
    if i == 189 {
        lex_adj_189();
    }
    if i == 190 {
        lex_adj_190();
    }
    if i == 191 {
        lex_adj_191();
    }
    if i == 192 {
        lex_adj_192();
    }
    if i == 193 {
        lex_adj_193();
    }
    if i == 194 {
        lex_adj_194();
    }
    if i == 195 {
        lex_adj_195();
    }
    if i == 196 {
        lex_adj_196();
    }
    if i == 197 {
        lex_adj_197();
    }
    if i == 198 {
        lex_adj_198();
    }
    if i == 199 {
        lex_adj_199();
    }
    if i == 200 {
        lex_adj_200();
    }
    if i == 201 {
        lex_adj_201();
    }
    if i == 202 {
        lex_adj_202();
    }
    if i == 203 {
        lex_adj_203();
    }
    if i == 204 {
        lex_adj_204();
    }
    if i == 205 {
        lex_adj_205();
    }
    if i == 206 {
        lex_adj_206();
    }
    if i == 207 {
        lex_adj_207();
    }
    if i == 208 {
        lex_adj_208();
    }
    if i == 209 {
        lex_adj_209();
    }
    if i == 210 {
        lex_adj_210();
    }
    if i == 211 {
        lex_adj_211();
    }
    if i == 212 {
        lex_adj_212();
    }
    if i == 213 {
        lex_adj_213();
    }
    if i == 214 {
        lex_adj_214();
    }
    if i == 215 {
        lex_adj_215();
    }
    if i == 216 {
        lex_adj_216();
    }
    if i == 217 {
        lex_adj_217();
    }
    if i == 218 {
        lex_adj_218();
    }
    if i == 219 {
        lex_adj_219();
    }
    if i == 220 {
        lex_adj_220();
    }
    if i == 221 {
        lex_adj_221();
    }
    if i == 222 {
        lex_adj_222();
    }
    if i == 223 {
        lex_adj_223();
    }
    if i == 224 {
        lex_adj_224();
    }
    if i == 225 {
        lex_adj_225();
    }
    if i == 226 {
        lex_adj_226();
    }
    if i == 227 {
        lex_adj_227();
    }
    if i == 228 {
        lex_adj_228();
    }
    if i == 229 {
        lex_adj_229();
    }
    if i == 230 {
        lex_adj_230();
    }
    if i == 231 {
        lex_adj_231();
    }
    if i == 232 {
        lex_adj_232();
    }
    if i == 233 {
        lex_adj_233();
    }
    if i == 234 {
        lex_adj_234();
    }
    if i == 235 {
        lex_adj_235();
    }
    if i == 236 {
        lex_adj_236();
    }
    if i == 237 {
        lex_adj_237();
    }
    if i == 238 {
        lex_adj_238();
    }
    if i == 239 {
        lex_adj_239();
    }
    if i == 240 {
        lex_adj_240();
    }
    if i == 241 {
        lex_adj_241();
    }
    if i == 242 {
        lex_adj_242();
    }
    if i == 243 {
        lex_adj_243();
    }
    if i == 244 {
        lex_adj_244();
    }
    if i == 245 {
        lex_adj_245();
    }
    if i == 246 {
        lex_adj_246();
    }
    if i == 247 {
        lex_adj_247();
    }
    if i == 248 {
        lex_adj_248();
    }
    if i == 249 {
        lex_adj_249();
    }
    if i == 250 {
        lex_adj_250();
    }
    if i == 251 {
        lex_adj_251();
    }
    if i == 252 {
        lex_adj_252();
    }
    if i == 253 {
        lex_adj_253();
    }
    if i == 254 {
        lex_adj_254();
    }
    if i == 255 {
        lex_adj_255();
    }
    if i == 256 {
        lex_adj_256();
    }
    if i == 257 {
        lex_adj_257();
    }
    if i == 258 {
        lex_adj_258();
    }
    if i == 259 {
        lex_adj_259();
    }
    if i == 260 {
        lex_adj_260();
    }
    if i == 261 {
        lex_adj_261();
    }
    if i == 262 {
        lex_adj_262();
    }
    if i == 263 {
        lex_adj_263();
    }
    if i == 264 {
        lex_adj_264();
    }
    if i == 265 {
        lex_adj_265();
    }
    if i == 266 {
        lex_adj_266();
    }
    if i == 267 {
        lex_adj_267();
    }
    if i == 268 {
        lex_adj_268();
    }
    if i == 269 {
        lex_adj_269();
    }
    if i == 270 {
        lex_adj_270();
    }
    if i == 271 {
        lex_adj_271();
    }
    if i == 272 {
        lex_adj_272();
    }
    if i == 273 {
        lex_adj_273();
    }
    if i == 274 {
        lex_adj_274();
    }
    if i == 275 {
        lex_adj_275();
    }
    if i == 276 {
        lex_adj_276();
    }
    if i == 277 {
        lex_adj_277();
    }
    if i == 278 {
        lex_adj_278();
    }
    if i == 279 {
        lex_adj_279();
    }
}

} // verus!
